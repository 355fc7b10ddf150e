//! Which values may be written to a register or field.

use crate::error::{outcome, SVDError, SVDErrorKind, SVDErrorKindView, SVDErrorView};
use crate::parse::{child_number, flag_of, get_child_u32, parse_bool};
use crate::text::str_eq;
use crate::xml::{lemma_children_view, Node, NodeView};
use vstd::prelude::*;
use vstd::string::*;

verus! {

/// The least and the greatest value that may be written.
#[derive(Clone, Copy, Debug, PartialEq, Eq)]
pub struct WriteConstraintRange {
    pub min: u32,
    pub max: u32,
}

/// Which values may be written to a register or field.
#[derive(Clone, Copy, Debug, PartialEq, Eq)]
pub enum WriteConstraint {
    WriteAsRead(bool),
    UseEnumeratedValues(bool),
    Range(WriteConstraintRange),
}

impl DeepView for WriteConstraintRange {
    type V = WriteConstraintRange;

    open spec fn deep_view(&self) -> WriteConstraintRange {
        *self
    }
}

impl View for WriteConstraintRange {
    type V = WriteConstraintRange;

    open spec fn view(&self) -> WriteConstraintRange {
        *self
    }
}

impl DeepView for WriteConstraint {
    type V = WriteConstraint;

    open spec fn deep_view(&self) -> WriteConstraint {
        *self
    }
}

impl View for WriteConstraint {
    type V = WriteConstraint;

    open spec fn view(&self) -> WriteConstraint {
        *self
    }
}

/// The bounds that a `range` node gives.
pub open spec fn spec_write_range(n: NodeView) -> Result<WriteConstraintRange, SVDErrorView> {
    match child_number(n, "minimum"@) {
        Err(e) => Err(e),
        Ok(min) => match child_number(n, "maximum"@) {
            Err(e) => Err(e),
            Ok(max) => Ok(WriteConstraintRange { min, max }),
        },
    }
}

/// The constraint that a `writeConstraint` node gives. It has exactly one
/// child, whose tag says which constraint it is.
pub open spec fn spec_write_constraint(n: NodeView) -> Result<WriteConstraint, SVDErrorView> {
    if n.children.len() != 1 {
        Err(SVDErrorView::new(SVDErrorKindView::MoreThanOneWriteConstraint(n)))
    } else {
        let c = n.children[0];
        if c.name == "writeAsRead"@ {
            match flag_of(c) {
                Ok(b) => Ok(WriteConstraint::WriteAsRead(b)),
                Err(e) => Err(e),
            }
        } else if c.name == "useEnumeratedValues"@ {
            match flag_of(c) {
                Ok(b) => Ok(WriteConstraint::UseEnumeratedValues(b)),
                Err(e) => Err(e),
            }
        } else if c.name == "range"@ {
            match spec_write_range(c) {
                Ok(r) => Ok(WriteConstraint::Range(r)),
                Err(e) => Err(e),
            }
        } else {
            Err(SVDErrorView::new(SVDErrorKindView::UnknownWriteConstraint(n)))
        }
    }
}

/// The constraint in the child `writeConstraint`, `None` where there is no
/// such child.
pub open spec fn child_write_constraint_opt(n: NodeView) -> Result<
    Option<WriteConstraint>,
    SVDErrorView,
> {
    match n.child("writeConstraint"@) {
        None => Ok(None),
        Some(c) => match spec_write_constraint(c) {
            Ok(a) => Ok(Some(a)),
            Err(e) => Err(e),
        },
    }
}

impl WriteConstraintRange {
    /// Decodes the bounds that the `range` element `node` gives.
    pub fn parse(node: &Node) -> (r: Result<WriteConstraintRange, SVDError>)
        ensures
            outcome(r) == spec_write_range(node@),
    {
        let min = match get_child_u32("minimum", node) {
            Err(e) => { return Err(e); },
            Ok(v) => v,
        };
        let max = match get_child_u32("maximum", node) {
            Err(e) => { return Err(e); },
            Ok(v) => v,
        };
        Ok(WriteConstraintRange { min, max })
    }
}

impl WriteConstraint {
    /// Decodes the constraint that the `writeConstraint` element `node` gives.
    pub fn parse(node: &Node) -> (r: Result<WriteConstraint, SVDError>)
        ensures
            outcome(r) == spec_write_constraint(node@),
    {
        proof {
            lemma_children_view(*node);
        }
        if node.children.len() != 1 {
            return Err(SVDError::new(SVDErrorKind::MoreThanOneWriteConstraint(node.clone())));
        }
        let c = &node.children[0];
        let tag = c.name.as_str();
        if str_eq(tag, "writeAsRead") {
            match parse_bool(c) {
                Ok(b) => Ok(WriteConstraint::WriteAsRead(b)),
                Err(e) => Err(e),
            }
        } else if str_eq(tag, "useEnumeratedValues") {
            match parse_bool(c) {
                Ok(b) => Ok(WriteConstraint::UseEnumeratedValues(b)),
                Err(e) => Err(e),
            }
        } else if str_eq(tag, "range") {
            match WriteConstraintRange::parse(c) {
                Ok(r) => Ok(WriteConstraint::Range(r)),
                Err(e) => Err(e),
            }
        } else {
            Err(SVDError::new(SVDErrorKind::UnknownWriteConstraint(node.clone())))
        }
    }

    /// Decodes the child `writeConstraint` of `node`, if there is one.
    pub fn parse_child(node: &Node) -> (r: Result<Option<WriteConstraint>, SVDError>)
        ensures
            outcome(r) == child_write_constraint_opt(node@),
    {
        match node.get_child("writeConstraint") {
            None => Ok(None),
            Some(c) => match WriteConstraint::parse(c) {
                Ok(a) => Ok(Some(a)),
                Err(e) => Err(e),
            },
        }
    }
}

} // verus!
