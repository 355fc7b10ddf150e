//! Peripherals and the rule by which one takes over what another defines.

use crate::cluster::{
    all_wf, clone_register_clusters, lemma_register_clusters_wf, parse_register_clusters,
    register_clusters, RegisterCluster, RegisterClusterView,
};
use crate::error::{
    framed, numbered, outcome, SVDError, SVDErrorKind, SVDErrorKindView, SVDErrorView,
};
use crate::parse::{
    child_number, child_text, child_text_opt, collect, get_child_u32, lemma_collect_failure,
    lemma_collect_step,
};
use crate::svd::interrupt::{spec_interrupt, Interrupt, InterruptView};
use crate::text::{decimal, str_eq};
use crate::xml::{lemma_children_view, lemma_first_named, Node, NodeView};
use vstd::prelude::*;
use vstd::string::*;

verus! {

/// A peripheral: a block of registers at a base address, with its
/// interrupts.
#[derive(Debug, PartialEq, Eq)]
pub struct Peripheral {
    pub name: String,
    pub group_name: Option<String>,
    pub description: Option<String>,
    pub base_address: u32,
    pub interrupt: Vec<Interrupt>,
    /// `None` where the document has no `registers` node.
    pub registers: Option<Vec<RegisterCluster>>,
    pub derived_from: Option<String>,
}

/// The mathematical model of [`Peripheral`].
pub struct PeripheralView {
    pub name: Seq<char>,
    pub group_name: Option<Seq<char>>,
    pub description: Option<Seq<char>>,
    pub base_address: u32,
    pub interrupt: Seq<InterruptView>,
    pub registers: Option<Seq<RegisterClusterView>>,
    pub derived_from: Option<Seq<char>>,
}

/// `own` where it is set, `base` where it is not.
pub open spec fn or_else<T>(own: Option<T>, base: Option<T>) -> Option<T> {
    match own {
        Some(_) => own,
        None => base,
    }
}

impl PeripheralView {
    /// Every array among the registers and clusters, at any depth, is
    /// well-formed.
    pub open spec fn wf(self) -> bool {
        self.registers matches Some(list) ==> all_wf(list)
    }

    /// This peripheral with what it leaves open taken from `other`: the
    /// group name, the description and the registers where they are not
    /// set, the interrupts where there are none. Name, base address and the
    /// reference to the base stay.
    pub open spec fn derive_from(self, other: PeripheralView) -> PeripheralView {
        PeripheralView {
            name: self.name,
            group_name: or_else(self.group_name, other.group_name),
            description: or_else(self.description, other.description),
            base_address: self.base_address,
            interrupt: if self.interrupt.len() == 0 {
                other.interrupt
            } else {
                self.interrupt
            },
            registers: or_else(self.registers, other.registers),
            derived_from: self.derived_from,
        }
    }
}

impl DeepView for Peripheral {
    type V = PeripheralView;

    open spec fn deep_view(&self) -> PeripheralView {
        PeripheralView {
            name: self.name@,
            group_name: self.group_name.deep_view(),
            description: self.description.deep_view(),
            base_address: self.base_address,
            interrupt: self.interrupt.deep_view(),
            registers: self.registers.deep_view(),
            derived_from: self.derived_from.deep_view(),
        }
    }
}

impl View for Peripheral {
    type V = PeripheralView;

    open spec fn view(&self) -> PeripheralView {
        self.deep_view()
    }
}

fn clone_interrupts(list: &Vec<Interrupt>) -> (r: Vec<Interrupt>)
    ensures
        r.deep_view() == list.deep_view(),
{
    let copy = list.clone();
    assert(copy.deep_view() =~= list.deep_view());
    copy
}

fn clone_registers(list: &Option<Vec<RegisterCluster>>) -> (r: Option<Vec<RegisterCluster>>)
    ensures
        r.deep_view() == list.deep_view(),
{
    match list {
        None => None,
        Some(l) => Some(clone_register_clusters(l)),
    }
}

impl Clone for Peripheral {
    fn clone(&self) -> (r: Peripheral)
        ensures
            r@ == self@,
    {
        Peripheral {
            name: self.name.clone(),
            group_name: self.group_name.clone(),
            description: self.description.clone(),
            base_address: self.base_address,
            interrupt: clone_interrupts(&self.interrupt),
            registers: clone_registers(&self.registers),
            derived_from: self.derived_from.clone(),
        }
    }
}

/// The interrupt that the `i`-th `interrupt` child of a peripheral
/// describes. A failure inside it carries its number in its trail.
pub open spec fn numbered_interrupt(c: NodeView, i: nat) -> Result<InterruptView, SVDErrorView> {
    match spec_interrupt(c) {
        Ok(v) => Ok(v),
        Err(e) => Err(e.within("Parsing interrupt #"@ + decimal(i))),
    }
}

/// The interrupts of a peripheral with the given children: what each child
/// `interrupt` describes, in document order.
pub open spec fn interrupts(children: Seq<NodeView>) -> Result<Seq<InterruptView>, SVDErrorView> {
    collect(
        children,
        |c: NodeView| c.name == "interrupt"@,
        |c: NodeView, i: nat| numbered_interrupt(c, i),
    )
}

/// The registers and clusters of a peripheral node: `None` where it has no
/// child `registers`, what the children of that child describe where it has
/// one.
pub open spec fn peripheral_registers(n: NodeView) -> Result<
    Option<Seq<RegisterClusterView>>,
    SVDErrorView,
> {
    match n.child("registers"@) {
        None => Ok(None),
        Some(r) => match register_clusters(r.children, true) {
            Ok(list) => Ok(Some(list)),
            Err(e) => Err(e),
        },
    }
}

/// What a peripheral node with the given name holds besides the name.
pub open spec fn peripheral_body(n: NodeView, name: Seq<char>) -> Result<
    PeripheralView,
    SVDErrorView,
> {
    match child_text_opt(n, "groupName"@) {
        Err(e) => Err(e),
        Ok(group_name) => match child_text_opt(n, "description"@) {
            Err(e) => Err(e),
            Ok(description) => match child_number(n, "baseAddress"@) {
                Err(e) => Err(e),
                Ok(base_address) => match interrupts(n.children) {
                    Err(e) => Err(e),
                    Ok(interrupt) => match peripheral_registers(n) {
                        Err(e) => Err(e),
                        Ok(registers) => Ok(
                            PeripheralView {
                                name,
                                group_name,
                                description,
                                base_address,
                                interrupt,
                                registers,
                                derived_from: n.attribute("derivedFrom"@),
                            },
                        ),
                    },
                },
            },
        },
    }
}

/// The peripheral that a `peripheral` node describes. A failure below the
/// name carries the name in its trail.
pub open spec fn spec_peripheral(n: NodeView) -> Result<PeripheralView, SVDErrorView> {
    if n.name != "peripheral"@ {
        Err(SVDErrorView::new(SVDErrorKindView::NotExpectedTag(n, "peripheral"@)))
    } else {
        match child_text(n, "name"@) {
            Err(e) => Err(e),
            Ok(name) => match peripheral_body(n, name) {
                Ok(v) => Ok(v),
                Err(e) => Err(e.within("In peripheral `"@ + name + "`"@)),
            },
        }
    }
}

impl Peripheral {
    /// This peripheral with what it leaves open taken from `other`. Only
    /// `other` itself is consulted, not what `other` derives from.
    pub fn derive_from(&self, other: &Peripheral) -> (derived: Peripheral)
        ensures
            derived@ == self@.derive_from(other@),
            self@.wf() && other@.wf() ==> derived@.wf(),
    {
        let group_name = match &self.group_name {
            Some(g) => Some(g.clone()),
            None => other.group_name.clone(),
        };
        let description = match &self.description {
            Some(d) => Some(d.clone()),
            None => other.description.clone(),
        };
        let registers = match &self.registers {
            Some(r) => Some(clone_register_clusters(r)),
            None => clone_registers(&other.registers),
        };
        let interrupt = if self.interrupt.len() == 0 {
            clone_interrupts(&other.interrupt)
        } else {
            clone_interrupts(&self.interrupt)
        };
        Peripheral {
            name: self.name.clone(),
            group_name,
            description,
            base_address: self.base_address,
            interrupt,
            registers,
            derived_from: self.derived_from.clone(),
        }
    }

    /// Decodes the peripheral that the `peripheral` element `node` describes.
    pub fn parse(node: &Node) -> (r: Result<Peripheral, SVDError>)
        ensures
            outcome(r) == spec_peripheral(node@),
            r matches Ok(p) ==> p@.wf(),
    {
        proof {
            lemma_peripheral_wf(node@);
        }
        if !str_eq(node.name.as_str(), "peripheral") {
            return Err(
                SVDError::new(
                    SVDErrorKind::NotExpectedTag(node.clone(), String::from_str("peripheral")),
                ),
            );
        }
        let name = match node.get_child_text("name") {
            Err(e) => { return Err(e); },
            Ok(v) => v,
        };
        let note = framed("In peripheral `", name.as_str(), "`");
        match Peripheral::parse_body(node, name) {
            Ok(v) => Ok(v),
            Err(e) => Err(e.within(note)),
        }
    }

    fn parse_body(node: &Node, name: String) -> (r: Result<Peripheral, SVDError>)
        ensures
            outcome(r) == peripheral_body(node@, name@),
    {
        let group_name = match node.get_child_text_opt("groupName") {
            Err(e) => { return Err(e); },
            Ok(v) => v,
        };
        let description = match node.get_child_text_opt("description") {
            Err(e) => { return Err(e); },
            Ok(v) => v,
        };
        let base_address = match get_child_u32("baseAddress", node) {
            Err(e) => { return Err(e); },
            Ok(v) => v,
        };
        let interrupt = match Peripheral::parse_interrupts(node) {
            Err(e) => { return Err(e); },
            Ok(v) => v,
        };
        let registers = match node.get_child("registers") {
            None => None,
            Some(r) => match parse_register_clusters(r, true) {
                Err(e) => { return Err(e); },
                Ok(list) => Some(list),
            },
        };
        let derived_from = node.get_attribute("derivedFrom");
        Ok(
            Peripheral {
                name,
                group_name,
                description,
                base_address,
                interrupt,
                registers,
                derived_from,
            },
        )
    }

    fn parse_interrupts(node: &Node) -> (r: Result<Vec<Interrupt>, SVDError>)
        ensures
            outcome(r) == interrupts(node@.children),
    {
        let ghost pick = |c: NodeView| c.name == "interrupt"@;
        let ghost step = |c: NodeView, i: nat| numbered_interrupt(c, i);
        let ghost all = node@.children;
        let mut list: Vec<Interrupt> = Vec::new();
        let mut i: usize = 0;
        proof {
            lemma_children_view(*node);
            assert(list.deep_view() =~= Seq::empty());
        }
        while i < node.children.len()
            invariant
                i <= node.children.len(),
                all == node@.children,
                all == node.children.deep_view(),
                pick == |c: NodeView| c.name == "interrupt"@,
                step == |c: NodeView, i: nat| numbered_interrupt(c, i),
                collect(all.take(i as int), pick, step) == Ok::<Seq<InterruptView>, SVDErrorView>(
                    list.deep_view(),
                ),
            decreases node.children.len() - i,
        {
            proof {
                lemma_collect_step(all, pick, step, i as int);
            }
            let c = &node.children[i];
            if str_eq(c.name.as_str(), "interrupt") {
                let ghost before = list.deep_view();
                match Interrupt::parse(c) {
                    Err(e) => {
                        proof {
                            lemma_collect_failure(all, pick, step, i + 1);
                        }
                        return Err(e.within(numbered("Parsing interrupt #", list.len())));
                    },
                    Ok(v) => {
                        list.push(v);
                        assert(list.deep_view() =~= before.push(v.deep_view()));
                    },
                }
            }
            i += 1;
        }
        proof {
            assert(all.take(i as int) == all);
        }
        Ok(list)
    }
}

/// A peripheral that is decoded holds well-formed registers and clusters
/// only.
pub proof fn lemma_peripheral_wf(n: NodeView)
    ensures
        spec_peripheral(n) matches Ok(p) ==> p.wf(),
{
    if let Some(r) = n.child("registers"@) {
        lemma_register_clusters_wf(r.children, true);
    }
}

/// A `peripheral` node none of whose children is tagged `name` is refused
/// as lacking the tag `name`, and the failure holds the node.
pub proof fn lemma_peripheral_without_name(n: NodeView)
    requires
        n.name == "peripheral"@,
        forall|i: int| 0 <= i < n.children.len() ==> (#[trigger] n.children[i]).name != "name"@,
    ensures
        spec_peripheral(n) == Err::<PeripheralView, SVDErrorView>(
            SVDErrorView::new(SVDErrorKindView::MissingTag(n, "name"@)),
        ),
{
    lemma_first_named(n.children, "name"@);
}

} // verus!
