//! Registers: single ones and arrays of them.

use crate::dim::{
    dim_labels, lemma_array_labels, spec_array_info, RegisterClusterArrayInfo,
    RegisterClusterArrayInfoView,
};
use crate::error::{framed, outcome, SVDError, SVDErrorKind, SVDErrorKindView, SVDErrorView};
use crate::field::{spec_field, Field, FieldView};
use crate::parse::{
    child_number, child_number_opt, child_text, child_text_opt, collect, get_child_u32,
    get_child_u32_opt, lemma_collect_failure, lemma_collect_step,
};
use crate::svd::access::{child_access_opt, Access};
use crate::svd::writeconstraint::{child_write_constraint_opt, WriteConstraint};
use crate::text::{contains_pair, has_pair, radix_u32, str_eq};
use crate::xml::{lemma_children_view, Node, NodeView};
use vstd::prelude::*;
use vstd::string::*;

verus! {

/// The properties of a register.
#[derive(Debug, PartialEq, Eq)]
pub struct RegisterInfo {
    pub name: String,
    pub alternate_group: Option<String>,
    pub alternate_register: Option<String>,
    pub derived_from: Option<String>,
    pub description: String,
    pub address_offset: u32,
    pub size: Option<u32>,
    pub access: Option<Access>,
    pub reset_value: Option<u32>,
    pub reset_mask: Option<u32>,
    /// `None` where the document has no `fields` node.
    pub fields: Option<Vec<Field>>,
    pub write_constraint: Option<WriteConstraint>,
}

/// The mathematical model of [`RegisterInfo`].
pub struct RegisterInfoView {
    pub name: Seq<char>,
    pub alternate_group: Option<Seq<char>>,
    pub alternate_register: Option<Seq<char>>,
    pub derived_from: Option<Seq<char>>,
    pub description: Seq<char>,
    pub address_offset: u32,
    pub size: Option<u32>,
    pub access: Option<Access>,
    pub reset_value: Option<u32>,
    pub reset_mask: Option<u32>,
    pub fields: Option<Seq<FieldView>>,
    pub write_constraint: Option<WriteConstraint>,
}

impl DeepView for RegisterInfo {
    type V = RegisterInfoView;

    open spec fn deep_view(&self) -> RegisterInfoView {
        RegisterInfoView {
            name: self.name@,
            alternate_group: self.alternate_group.deep_view(),
            alternate_register: self.alternate_register.deep_view(),
            derived_from: self.derived_from.deep_view(),
            description: self.description@,
            address_offset: self.address_offset,
            size: self.size,
            access: self.access,
            reset_value: self.reset_value,
            reset_mask: self.reset_mask,
            fields: self.fields.deep_view(),
            write_constraint: self.write_constraint,
        }
    }
}

impl View for RegisterInfo {
    type V = RegisterInfoView;

    open spec fn view(&self) -> RegisterInfoView {
        self.deep_view()
    }
}

impl Clone for RegisterInfo {
    fn clone(&self) -> (r: RegisterInfo)
        ensures
            r@ == self@,
    {
        let fields = match &self.fields {
            None => None,
            Some(list) => {
                let copy = list.clone();
                assert(copy.deep_view() =~= list.deep_view());
                Some(copy)
            },
        };
        RegisterInfo {
            name: self.name.clone(),
            alternate_group: self.alternate_group.clone(),
            alternate_register: self.alternate_register.clone(),
            derived_from: self.derived_from.clone(),
            description: self.description.clone(),
            address_offset: self.address_offset,
            size: self.size,
            access: self.access,
            reset_value: self.reset_value,
            reset_mask: self.reset_mask,
            fields,
            write_constraint: self.write_constraint,
        }
    }
}

/// The fields that the children of a `fields` node describe, in document
/// order.
pub open spec fn field_list(children: Seq<NodeView>) -> Result<Seq<FieldView>, SVDErrorView> {
    collect(children, |c: NodeView| true, |c: NodeView, i: nat| spec_field(c))
}

/// The fields of a register node: `None` where it has no child `fields`,
/// the list, which may be empty, where it has one.
pub open spec fn register_fields(n: NodeView) -> Result<Option<Seq<FieldView>>, SVDErrorView> {
    match n.child("fields"@) {
        None => Ok(None),
        Some(f) => match field_list(f.children) {
            Ok(list) => Ok(Some(list)),
            Err(e) => Err(e),
        },
    }
}

/// What a register node with the given name holds besides the name.
pub open spec fn register_info_body(n: NodeView, name: Seq<char>) -> Result<
    RegisterInfoView,
    SVDErrorView,
> {
    match child_text_opt(n, "alternateGroup"@) {
        Err(e) => Err(e),
        Ok(alternate_group) => match child_text_opt(n, "alternateRegister"@) {
            Err(e) => Err(e),
            Ok(alternate_register) => match child_text(n, "description"@) {
                Err(e) => Err(e),
                Ok(description) => match child_number(n, "addressOffset"@) {
                    Err(e) => Err(e),
                    Ok(address_offset) => match child_number_opt(n, "size"@) {
                        Err(e) => Err(e),
                        Ok(size) => match child_access_opt(n) {
                            Err(e) => Err(e),
                            Ok(access) => match child_number_opt(n, "resetValue"@) {
                                Err(e) => Err(e),
                                Ok(reset_value) => match child_number_opt(n, "resetMask"@) {
                                    Err(e) => Err(e),
                                    Ok(reset_mask) => match register_fields(n) {
                                        Err(e) => Err(e),
                                        Ok(fields) => match child_write_constraint_opt(n) {
                                            Err(e) => Err(e),
                                            Ok(write_constraint) => Ok(
                                                RegisterInfoView {
                                                    name,
                                                    alternate_group,
                                                    alternate_register,
                                                    derived_from: n.attribute("derivedFrom"@),
                                                    description,
                                                    address_offset,
                                                    size,
                                                    access,
                                                    reset_value,
                                                    reset_mask,
                                                    fields,
                                                    write_constraint,
                                                },
                                            ),
                                        },
                                    },
                                },
                            },
                        },
                    },
                },
            },
        },
    }
}

/// The properties of the register that a node describes. A failure below
/// the name carries the name in its trail.
pub open spec fn spec_register_info(n: NodeView) -> Result<RegisterInfoView, SVDErrorView> {
    match child_text(n, "name"@) {
        Err(e) => Err(e),
        Ok(name) => match register_info_body(n, name) {
            Ok(v) => Ok(v),
            Err(e) => Err(e.within("In register `"@ + name + "`"@)),
        },
    }
}

impl RegisterInfo {
    /// Decodes the properties of the register that `node` describes.
    pub fn parse(node: &Node) -> (r: Result<RegisterInfo, SVDError>)
        ensures
            outcome(r) == spec_register_info(node@),
    {
        let name = match node.get_child_text("name") {
            Err(e) => { return Err(e); },
            Ok(v) => v,
        };
        let note = framed("In register `", name.as_str(), "`");
        match RegisterInfo::parse_body(node, name) {
            Ok(v) => Ok(v),
            Err(e) => Err(e.within(note)),
        }
    }

    fn parse_body(node: &Node, name: String) -> (r: Result<RegisterInfo, SVDError>)
        ensures
            outcome(r) == register_info_body(node@, name@),
    {
        let alternate_group = match node.get_child_text_opt("alternateGroup") {
            Err(e) => { return Err(e); },
            Ok(v) => v,
        };
        let alternate_register = match node.get_child_text_opt("alternateRegister") {
            Err(e) => { return Err(e); },
            Ok(v) => v,
        };
        let derived_from = node.get_attribute("derivedFrom");
        let description = match node.get_child_text("description") {
            Err(e) => { return Err(e); },
            Ok(v) => v,
        };
        let address_offset = match get_child_u32("addressOffset", node) {
            Err(e) => { return Err(e); },
            Ok(v) => v,
        };
        let size = match get_child_u32_opt("size", node) {
            Err(e) => { return Err(e); },
            Ok(v) => v,
        };
        let access = match Access::parse_child(node) {
            Err(e) => { return Err(e); },
            Ok(v) => v,
        };
        let reset_value = match get_child_u32_opt("resetValue", node) {
            Err(e) => { return Err(e); },
            Ok(v) => v,
        };
        let reset_mask = match get_child_u32_opt("resetMask", node) {
            Err(e) => { return Err(e); },
            Ok(v) => v,
        };
        let fields = match node.get_child("fields") {
            None => None,
            Some(f) => match RegisterInfo::parse_fields(f) {
                Err(e) => { return Err(e); },
                Ok(list) => Some(list),
            },
        };
        let write_constraint = match WriteConstraint::parse_child(node) {
            Err(e) => { return Err(e); },
            Ok(v) => v,
        };
        Ok(
            RegisterInfo {
                name,
                alternate_group,
                alternate_register,
                derived_from,
                description,
                address_offset,
                size,
                access,
                reset_value,
                reset_mask,
                fields,
                write_constraint,
            },
        )
    }

    fn parse_fields(node: &Node) -> (r: Result<Vec<Field>, SVDError>)
        ensures
            outcome(r) == field_list(node@.children),
    {
        let ghost pick = |c: NodeView| true;
        let ghost step = |c: NodeView, i: nat| spec_field(c);
        let ghost all = node@.children;
        let mut fields: Vec<Field> = Vec::new();
        let mut i: usize = 0;
        proof {
            lemma_children_view(*node);
            assert(fields.deep_view() =~= Seq::empty());
        }
        while i < node.children.len()
            invariant
                i <= node.children.len(),
                all == node@.children,
                all == node.children.deep_view(),
                pick == |c: NodeView| true,
                step == |c: NodeView, i: nat| spec_field(c),
                collect(all.take(i as int), pick, step) == Ok::<Seq<FieldView>, SVDErrorView>(
                    fields.deep_view(),
                ),
            decreases node.children.len() - i,
        {
            proof {
                lemma_collect_step(all, pick, step, i as int);
            }
            let ghost before = fields.deep_view();
            match Field::parse(&node.children[i]) {
                Err(e) => {
                    proof {
                        lemma_collect_failure(all, pick, step, i + 1);
                    }
                    return Err(e);
                },
                Ok(v) => {
                    fields.push(v);
                    assert(fields.deep_view() =~= before.push(v.deep_view()));
                },
            }
            i += 1;
        }
        proof {
            assert(all.take(i as int) == all);
        }
        Ok(fields)
    }
}

/// A register, or an array of registers with the same properties.
#[derive(Debug, PartialEq, Eq)]
pub enum Register {
    Single(RegisterInfo),
    Array(RegisterInfo, RegisterClusterArrayInfo),
}

/// The mathematical model of [`Register`].
pub enum RegisterView {
    Single(RegisterInfoView),
    Array(RegisterInfoView, RegisterClusterArrayInfoView),
}

impl RegisterView {
    /// The properties, whether of a single register or of an array.
    pub open spec fn info(self) -> RegisterInfoView {
        match self {
            RegisterView::Single(info) => info,
            RegisterView::Array(info, _) => info,
        }
    }

    /// The name of an array holds the placeholder `%s`, and its labels,
    /// where given, are as many as its elements.
    pub open spec fn wf(self) -> bool {
        self matches RegisterView::Array(info, array) ==> has_pair(info.name, '%', 's')
            && array.wf()
    }
}

impl DeepView for Register {
    type V = RegisterView;

    open spec fn deep_view(&self) -> RegisterView {
        match self {
            Register::Single(info) => RegisterView::Single(info.deep_view()),
            Register::Array(info, array) => RegisterView::Array(
                info.deep_view(),
                array.deep_view(),
            ),
        }
    }
}

impl View for Register {
    type V = RegisterView;

    open spec fn view(&self) -> RegisterView {
        self.deep_view()
    }
}

impl Clone for Register {
    fn clone(&self) -> (r: Register)
        ensures
            r@ == self@,
    {
        match self {
            Register::Single(info) => Register::Single(info.clone()),
            Register::Array(info, array) => Register::Array(info.clone(), array.clone()),
        }
    }
}

/// The register that a `register` node describes: an array where the node
/// has a child `dimIncrement`, a single register where it has none. An
/// array whose name lacks the placeholder `%s` is refused.
#[verifier::opaque]
pub open spec fn spec_register(n: NodeView) -> Result<RegisterView, SVDErrorView> {
    if n.name != "register"@ {
        Err(SVDErrorView::new(SVDErrorKindView::NotExpectedTag(n, "register"@)))
    } else {
        match spec_register_info(n) {
            Err(e) => Err(e),
            Ok(info) => if n.child("dimIncrement"@) is Some {
                match spec_array_info(n) {
                    Err(e) => Err(e),
                    Ok(array) => if has_pair(info.name, '%', 's') {
                        Ok(RegisterView::Array(info, array))
                    } else {
                        Err(SVDErrorView::new(SVDErrorKindView::MissingPlaceholder(info.name)))
                    },
                }
            } else {
                Ok(RegisterView::Single(info))
            },
        }
    }
}

impl Register {
    /// Decodes the register, or array of registers, that the `register`
    /// element `node` describes.
    pub fn parse(node: &Node) -> (r: Result<Register, SVDError>)
        ensures
            outcome(r) == spec_register(node@),
            r matches Ok(v) ==> v@.wf(),
    {
        proof {
            reveal(spec_register);
        }
        if !str_eq(node.name.as_str(), "register") {
            return Err(
                SVDError::new(
                    SVDErrorKind::NotExpectedTag(node.clone(), String::from_str("register")),
                ),
            );
        }
        let info = match RegisterInfo::parse(node) {
            Err(e) => { return Err(e); },
            Ok(v) => v,
        };
        if node.get_child("dimIncrement").is_some() {
            let array = match RegisterClusterArrayInfo::parse(node) {
                Err(e) => { return Err(e); },
                Ok(v) => v,
            };
            if !contains_pair(info.name.as_str(), '%', 's') {
                return Err(SVDError::new(SVDErrorKind::MissingPlaceholder(info.name)));
            }
            Ok(Register::Array(info, array))
        } else {
            Ok(Register::Single(info))
        }
    }
}

impl core::ops::Deref for Register {
    type Target = RegisterInfo;

    /// The properties, whether of a single register or of an array.
    fn deref(&self) -> (info: &RegisterInfo)
        ensures
            info@ == self@.info(),
    {
        match self {
            Register::Single(info) => info,
            Register::Array(info, _) => info,
        }
    }
}

/// A register node without a child `fields` describes a register whose
/// fields are absent; one with an empty child `fields` describes a register
/// with an empty list of fields. The two differ.
pub proof fn lemma_fields_presence(n: NodeView)
    ensures
        spec_register_info(n) matches Ok(info) ==> (info.fields is None <==> n.child("fields"@)
            is None),
        spec_register_info(n) matches Ok(info) ==> (n.child("fields"@) matches Some(f)
            ==> f.children.len() == 0 ==> info.fields == Some(Seq::<FieldView>::empty())),
{
}

/// A register array that is decoded has the placeholder in its name and a
/// label for each element where labels are listed. A register is an array
/// exactly where its node has a child `dimIncrement`, and a node with that
/// child whose labels are not as many as `dim` says is refused.
pub proof fn lemma_register_array(n: NodeView)
    ensures
        spec_register(n) matches Ok(r) ==> r.wf(),
        spec_register(n) matches Ok(r) ==> (r is Array <==> n.child("dimIncrement"@) is Some),
        (child_text(n, "dim"@) matches Ok(t) && radix_u32(t, 10) matches Some(dim) && dim_labels(
            n,
        ) matches Ok(Some(labels)) && labels.len() != dim && n.child("dimIncrement"@) is Some)
            ==> spec_register(n) is Err,
{
    reveal(spec_register);
    lemma_array_labels(n);
}

} // verus!
