//! For which direction of access a table of enumerated values holds.

use crate::error::{outcome, SVDError, SVDErrorKind, SVDErrorKindView, SVDErrorView};
use crate::parse::{get_text, text_of};
use crate::text::str_eq;
use crate::xml::{Node, NodeView};
use vstd::prelude::*;
use vstd::string::*;

verus! {

/// Whether a table of values holds for reading, for writing, or for both.
#[derive(Clone, Copy, Debug, PartialEq, Eq)]
pub enum Usage {
    Read,
    Write,
    ReadWrite,
}

impl DeepView for Usage {
    type V = Usage;

    open spec fn deep_view(&self) -> Usage {
        *self
    }
}

impl View for Usage {
    type V = Usage;

    open spec fn view(&self) -> Usage {
        *self
    }
}

/// The usage that a text names.
pub open spec fn usage_named(t: Seq<char>) -> Option<Usage> {
    if t == "read"@ {
        Some(Usage::Read)
    } else if t == "write"@ {
        Some(Usage::Write)
    } else if t == "read-write"@ {
        Some(Usage::ReadWrite)
    } else {
        None
    }
}

/// The usage in the text of a node.
pub open spec fn spec_usage(n: NodeView) -> Result<Usage, SVDErrorView> {
    match text_of(n) {
        Err(e) => Err(e),
        Ok(t) => match usage_named(t) {
            Some(a) => Ok(a),
            None => Err(SVDErrorView::new(SVDErrorKindView::UnknownUsageVariant(n))),
        },
    }
}

/// The usage in the child `usage`, `None` where there is no such child.
pub open spec fn child_usage_opt(n: NodeView) -> Result<Option<Usage>, SVDErrorView> {
    match n.child("usage"@) {
        None => Ok(None),
        Some(c) => match spec_usage(c) {
            Ok(a) => Ok(Some(a)),
            Err(e) => Err(e),
        },
    }
}

impl Usage {
    /// Decodes the usage in the text of `node`.
    pub fn parse(node: &Node) -> (r: Result<Usage, SVDError>)
        ensures
            outcome(r) == spec_usage(node@),
    {
        let text = match get_text(node) {
            Err(e) => { return Err(e); },
            Ok(t) => t,
        };
        let t = text.as_str();
        if str_eq(t, "read") {
            Ok(Usage::Read)
        } else if str_eq(t, "write") {
            Ok(Usage::Write)
        } else if str_eq(t, "read-write") {
            Ok(Usage::ReadWrite)
        } else {
            Err(SVDError::new(SVDErrorKind::UnknownUsageVariant(node.clone())))
        }
    }

    /// Decodes the child `usage` of `node`, if there is one.
    pub fn parse_child(node: &Node) -> (r: Result<Option<Usage>, SVDError>)
        ensures
            outcome(r) == child_usage_opt(node@),
    {
        match node.get_child("usage") {
            None => Ok(None),
            Some(c) => match Usage::parse(c) {
                Ok(a) => Ok(Some(a)),
                Err(e) => Err(e),
            },
        }
    }
}

} // verus!
