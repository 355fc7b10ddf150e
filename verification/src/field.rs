//! A bit field of a register.

use crate::error::{framed, outcome, SVDError, SVDErrorKind, SVDErrorKindView, SVDErrorView};
use crate::parse::{child_text, child_text_opt, collect, lemma_collect_failure, lemma_collect_step};
use crate::svd::access::{child_access_opt, Access};
use crate::svd::bitrange::{spec_bit_range, BitRange};
use crate::svd::enumeratedvalues::{
    spec_enumerated_values, EnumeratedValues, EnumeratedValuesView,
};
use crate::svd::writeconstraint::{child_write_constraint_opt, WriteConstraint};
use crate::text::str_eq;
use crate::xml::{lemma_children_view, Node, NodeView};
use vstd::prelude::*;
use vstd::string::*;

verus! {

/// A bit field of a register.
#[derive(Debug, PartialEq, Eq)]
pub struct Field {
    pub name: String,
    pub description: Option<String>,
    pub bit_range: BitRange,
    pub access: Option<Access>,
    pub enumerated_values: Vec<EnumeratedValues>,
    pub write_constraint: Option<WriteConstraint>,
}

/// The mathematical model of [`Field`].
pub struct FieldView {
    pub name: Seq<char>,
    pub description: Option<Seq<char>>,
    pub bit_range: BitRange,
    pub access: Option<Access>,
    pub enumerated_values: Seq<EnumeratedValuesView>,
    pub write_constraint: Option<WriteConstraint>,
}

impl DeepView for Field {
    type V = FieldView;

    open spec fn deep_view(&self) -> FieldView {
        FieldView {
            name: self.name@,
            description: self.description.deep_view(),
            bit_range: self.bit_range,
            access: self.access,
            enumerated_values: self.enumerated_values.deep_view(),
            write_constraint: self.write_constraint,
        }
    }
}

impl View for Field {
    type V = FieldView;

    open spec fn view(&self) -> FieldView {
        self.deep_view()
    }
}

impl Clone for Field {
    fn clone(&self) -> (r: Field)
        ensures
            r@ == self@,
    {
        let r = Field {
            name: self.name.clone(),
            description: self.description.clone(),
            bit_range: self.bit_range,
            access: self.access,
            enumerated_values: self.enumerated_values.clone(),
            write_constraint: self.write_constraint,
        };
        assert(r.enumerated_values.deep_view() =~= self.enumerated_values.deep_view());
        r
    }
}

/// The tables of a field with the given children: what each child
/// `enumeratedValues` describes, in document order.
pub open spec fn field_tables(children: Seq<NodeView>) -> Result<
    Seq<EnumeratedValuesView>,
    SVDErrorView,
> {
    collect(
        children,
        |c: NodeView| c.name == "enumeratedValues"@,
        |c: NodeView, i: nat| spec_enumerated_values(c),
    )
}

/// What a `field` node with the given name holds besides the name.
pub open spec fn field_body(n: NodeView, name: Seq<char>) -> Result<FieldView, SVDErrorView> {
    match child_text_opt(n, "description"@) {
        Err(e) => Err(e),
        Ok(description) => match spec_bit_range(n) {
            Err(e) => Err(e),
            Ok(bit_range) => match child_access_opt(n) {
                Err(e) => Err(e),
                Ok(access) => match field_tables(n.children) {
                    Err(e) => Err(e),
                    Ok(enumerated_values) => match child_write_constraint_opt(n) {
                        Err(e) => Err(e),
                        Ok(write_constraint) => Ok(
                            FieldView {
                                name,
                                description,
                                bit_range,
                                access,
                                enumerated_values,
                                write_constraint,
                            },
                        ),
                    },
                },
            },
        },
    }
}

/// The field that a `field` node describes. A failure below the name
/// carries the name in its trail.
pub open spec fn spec_field(n: NodeView) -> Result<FieldView, SVDErrorView> {
    if n.name != "field"@ {
        Err(SVDErrorView::new(SVDErrorKindView::NotExpectedTag(n, "field"@)))
    } else {
        match child_text(n, "name"@) {
            Err(e) => Err(e),
            Ok(name) => match field_body(n, name) {
                Ok(v) => Ok(v),
                Err(e) => Err(e.within("In field `"@ + name + "`"@)),
            },
        }
    }
}

impl Field {
    /// Decodes the field that the `field` element `node` describes.
    pub fn parse(node: &Node) -> (r: Result<Field, SVDError>)
        ensures
            outcome(r) == spec_field(node@),
    {
        if !str_eq(node.name.as_str(), "field") {
            return Err(
                SVDError::new(
                    SVDErrorKind::NotExpectedTag(node.clone(), String::from_str("field")),
                ),
            );
        }
        let name = match node.get_child_text("name") {
            Err(e) => { return Err(e); },
            Ok(v) => v,
        };
        let note = framed("In field `", name.as_str(), "`");
        match Field::parse_body(node, name) {
            Ok(v) => Ok(v),
            Err(e) => Err(e.within(note)),
        }
    }

    fn parse_body(node: &Node, name: String) -> (r: Result<Field, SVDError>)
        ensures
            outcome(r) == field_body(node@, name@),
    {
        let description = match node.get_child_text_opt("description") {
            Err(e) => { return Err(e); },
            Ok(v) => v,
        };
        let bit_range = match BitRange::parse(node) {
            Err(e) => { return Err(e); },
            Ok(v) => v,
        };
        let access = match Access::parse_child(node) {
            Err(e) => { return Err(e); },
            Ok(v) => v,
        };
        let enumerated_values = match Field::parse_tables(node) {
            Err(e) => { return Err(e); },
            Ok(v) => v,
        };
        let write_constraint = match WriteConstraint::parse_child(node) {
            Err(e) => { return Err(e); },
            Ok(v) => v,
        };
        Ok(Field { name, description, bit_range, access, enumerated_values, write_constraint })
    }

    fn parse_tables(node: &Node) -> (r: Result<Vec<EnumeratedValues>, SVDError>)
        ensures
            outcome(r) == field_tables(node@.children),
    {
        let ghost pick = |c: NodeView| c.name == "enumeratedValues"@;
        let ghost step = |c: NodeView, i: nat| spec_enumerated_values(c);
        let ghost all = node@.children;
        let mut tables: Vec<EnumeratedValues> = Vec::new();
        let mut i: usize = 0;
        proof {
            lemma_children_view(*node);
            assert(tables.deep_view() =~= Seq::empty());
        }
        while i < node.children.len()
            invariant
                i <= node.children.len(),
                all == node@.children,
                all == node.children.deep_view(),
                pick == |c: NodeView| c.name == "enumeratedValues"@,
                step == |c: NodeView, i: nat| spec_enumerated_values(c),
                collect(all.take(i as int), pick, step) == Ok::<
                    Seq<EnumeratedValuesView>,
                    SVDErrorView,
                >(tables.deep_view()),
            decreases node.children.len() - i,
        {
            proof {
                lemma_collect_step(all, pick, step, i as int);
            }
            let c = &node.children[i];
            if str_eq(c.name.as_str(), "enumeratedValues") {
                let ghost before = tables.deep_view();
                match EnumeratedValues::parse(c) {
                    Err(e) => {
                        proof {
                            lemma_collect_failure(all, pick, step, i + 1);
                        }
                        return Err(e);
                    },
                    Ok(v) => {
                        tables.push(v);
                        assert(tables.deep_view() =~= before.push(v.deep_view()));
                    },
                }
            }
            i += 1;
        }
        proof {
            assert(all.take(i as int) == all);
        }
        Ok(tables)
    }
}

} // verus!
