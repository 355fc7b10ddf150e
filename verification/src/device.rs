//! The device: the root of a description.

use crate::defaults::{spec_defaults, Defaults};
use crate::error::{outcome, SVDError, SVDErrorKind, SVDErrorKindView, SVDErrorView};
use crate::parse::{
    child_of, child_text, collect, get_child_elem, lemma_collect_all, lemma_collect_failure,
    lemma_collect_order, lemma_collect_step,
};
use crate::peripheral::{lemma_peripheral_wf, spec_peripheral, Peripheral, PeripheralView};
use crate::svd::cpu::{spec_cpu, Cpu, CpuView};
use crate::xml::{
    lemma_children_view, lemma_first_named, parse_document, xml_document, Node, NodeView,
};
use vstd::prelude::*;
use vstd::string::*;

verus! {

/// A whole chip: its name, its processor if the description names one, its
/// peripherals in document order, and the device-wide defaults.
#[derive(Debug, PartialEq, Eq)]
pub struct Device {
    pub name: String,
    pub cpu: Option<Cpu>,
    pub peripherals: Vec<Peripheral>,
    pub defaults: Defaults,
}

/// The mathematical model of [`Device`].
pub struct DeviceView {
    pub name: Seq<char>,
    pub cpu: Option<CpuView>,
    pub peripherals: Seq<PeripheralView>,
    pub defaults: Defaults,
}

impl DeviceView {
    /// Every array of registers or clusters in the device is well-formed.
    pub open spec fn wf(self) -> bool {
        forall|i: int| 0 <= i < self.peripherals.len() ==> (#[trigger] self.peripherals[i]).wf()
    }
}

impl DeepView for Device {
    type V = DeviceView;

    open spec fn deep_view(&self) -> DeviceView {
        DeviceView {
            name: self.name@,
            cpu: self.cpu.deep_view(),
            peripherals: self.peripherals.deep_view(),
            defaults: self.defaults,
        }
    }
}

impl View for Device {
    type V = DeviceView;

    open spec fn view(&self) -> DeviceView {
        self.deep_view()
    }
}

impl Clone for Device {
    fn clone(&self) -> (r: Device)
        ensures
            r@ == self@,
    {
        let peripherals = self.peripherals.clone();
        assert(peripherals.deep_view() =~= self.peripherals.deep_view());
        Device {
            name: self.name.clone(),
            cpu: self.cpu.clone(),
            peripherals,
            defaults: self.defaults,
        }
    }
}

/// The processor of a device node: `None` where it has no child `cpu`.
pub open spec fn device_cpu(n: NodeView) -> Result<Option<CpuView>, SVDErrorView> {
    match n.child("cpu"@) {
        None => Ok(None),
        Some(c) => match spec_cpu(c) {
            Ok(cpu) => Ok(Some(cpu)),
            Err(e) => Err(e),
        },
    }
}

/// The peripherals that the children of a `peripherals` node describe, in
/// document order.
pub open spec fn peripheral_list(children: Seq<NodeView>) -> Result<
    Seq<PeripheralView>,
    SVDErrorView,
> {
    collect(children, |c: NodeView| true, |c: NodeView, i: nat| spec_peripheral(c))
}

/// The peripherals of a device node, whose child `peripherals` must be
/// there.
pub open spec fn device_peripherals(n: NodeView) -> Result<Seq<PeripheralView>, SVDErrorView> {
    match child_of(n, "peripherals"@) {
        Err(e) => Err(e),
        Ok(p) => peripheral_list(p.children),
    }
}

/// The device that a document root describes.
pub open spec fn spec_device(n: NodeView) -> Result<DeviceView, SVDErrorView> {
    match child_text(n, "name"@) {
        Err(e) => Err(e),
        Ok(name) => match device_cpu(n) {
            Err(e) => Err(e),
            Ok(cpu) => match device_peripherals(n) {
                Err(e) => Err(e),
                Ok(peripherals) => match spec_defaults(n) {
                    Err(e) => Err(e),
                    Ok(defaults) => Ok(DeviceView { name, cpu, peripherals, defaults }),
                },
            },
        },
    }
}

/// The device that a document describes, given what the XML reader makes
/// of its text: nothing for a malformed document, else the root element.
pub open spec fn document_device(root: Option<NodeView>) -> Result<DeviceView, SVDErrorView> {
    match root {
        None => Err(SVDErrorView::new(SVDErrorKindView::MalformedDocument)),
        Some(n) => spec_device(n),
    }
}

impl Device {
    /// Decodes a device description from its XML text.
    pub fn parse(svd: &str) -> (r: Result<Device, SVDError>)
        ensures
            outcome(r) == document_device(xml_document(svd@)),
            r matches Ok(d) ==> d@.wf(),
    {
        match parse_document(svd) {
            None => Err(SVDError::new(SVDErrorKind::MalformedDocument)),
            Some(root) => Device::parse_tree(&root),
        }
    }

    /// Decodes a device description from the root of its document.
    pub fn parse_tree(node: &Node) -> (r: Result<Device, SVDError>)
        ensures
            outcome(r) == spec_device(node@),
            r matches Ok(d) ==> d@.wf(),
    {
        proof {
            lemma_device_wf(node@);
        }
        let name = match node.get_child_text("name") {
            Err(e) => { return Err(e); },
            Ok(v) => v,
        };
        let cpu = match node.get_child("cpu") {
            None => None,
            Some(c) => match Cpu::parse(c) {
                Err(e) => { return Err(e); },
                Ok(v) => Some(v),
            },
        };
        let peripherals = match get_child_elem("peripherals", node) {
            Err(e) => { return Err(e); },
            Ok(p) => match Device::parse_peripherals(p) {
                Err(e) => { return Err(e); },
                Ok(v) => v,
            },
        };
        let defaults = match Defaults::parse(node) {
            Err(e) => { return Err(e); },
            Ok(v) => v,
        };
        Ok(Device { name, cpu, peripherals, defaults })
    }

    fn parse_peripherals(node: &Node) -> (r: Result<Vec<Peripheral>, SVDError>)
        ensures
            outcome(r) == peripheral_list(node@.children),
    {
        let ghost pick = |c: NodeView| true;
        let ghost step = |c: NodeView, i: nat| spec_peripheral(c);
        let ghost all = node@.children;
        let mut list: Vec<Peripheral> = Vec::new();
        let mut i: usize = 0;
        proof {
            lemma_children_view(*node);
            assert(list.deep_view() =~= Seq::empty());
        }
        while i < node.children.len()
            invariant
                i <= node.children.len(),
                all == node@.children,
                all == node.children.deep_view(),
                pick == |c: NodeView| true,
                step == |c: NodeView, i: nat| spec_peripheral(c),
                collect(all.take(i as int), pick, step) == Ok::<Seq<PeripheralView>, SVDErrorView>(
                    list.deep_view(),
                ),
            decreases node.children.len() - i,
        {
            proof {
                lemma_collect_step(all, pick, step, i as int);
            }
            let ghost before = list.deep_view();
            match Peripheral::parse(&node.children[i]) {
                Err(e) => {
                    proof {
                        lemma_collect_failure(all, pick, step, i + 1);
                    }
                    return Err(e);
                },
                Ok(v) => {
                    list.push(v);
                    assert(list.deep_view() =~= before.push(v.deep_view()));
                },
            }
            i += 1;
        }
        proof {
            assert(all.take(i as int) == all);
        }
        Ok(list)
    }
}

/// The peripherals of a device stand in the order of the document: there is
/// one for each child of the `peripherals` element, and the one at each
/// place is what the child at that place describes.
pub proof fn lemma_peripherals_order(children: Seq<NodeView>)
    ensures
        peripheral_list(children) matches Ok(list) ==> {
            &&& list.len() == children.len()
            &&& forall|i: int|
                0 <= i < list.len() ==> spec_peripheral(children[i]) == Ok::<
                    PeripheralView,
                    SVDErrorView,
                >(#[trigger] list[i])
        },
{
    lemma_collect_order(
        children,
        |c: NodeView| true,
        |c: NodeView, i: nat| spec_peripheral(c),
    );
}

/// A device that is decoded holds well-formed peripherals only.
pub proof fn lemma_device_wf(n: NodeView)
    ensures
        spec_device(n) matches Ok(d) ==> d.wf(),
{
    if let Some(p) = n.child("peripherals"@) {
        let pick = |c: NodeView| true;
        let step = |c: NodeView, i: nat| spec_peripheral(c);
        let good = |v: PeripheralView| v.wf();
        assert forall|c: NodeView, i: nat| (#[trigger] step(c, i)) matches Ok(v) ==> good(v) by {
            lemma_peripheral_wf(c);
        }
        lemma_collect_all(p.children, pick, step, good);
    }
}

/// A document root none of whose children is tagged `cpu` describes a
/// device without a processor, and it is decoded whenever its name, its
/// peripherals and its defaults are.
pub proof fn lemma_device_without_cpu(n: NodeView)
    requires
        forall|i: int| 0 <= i < n.children.len() ==> (#[trigger] n.children[i]).name != "cpu"@,
    ensures
        spec_device(n) matches Ok(d) ==> d.cpu is None,
        spec_device(n) is Ok <==> child_text(n, "name"@) is Ok && device_peripherals(n) is Ok
            && spec_defaults(n) is Ok,
{
    lemma_first_named(n.children, "cpu"@);
}

/// Decoding is a function of the text: any two outcomes for one document
/// are equal in every part.
pub proof fn lemma_parse_deterministic(
    xml: Seq<char>,
    first: Result<Device, SVDError>,
    second: Result<Device, SVDError>,
)
    requires
        outcome(first) == document_device(xml_document(xml)),
        outcome(second) == document_device(xml_document(xml)),
    ensures
        outcome(first) == outcome(second),
        first is Ok <==> second is Ok,
{
}

} // verus!
