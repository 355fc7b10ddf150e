//! Access rights of a register or field.

use crate::error::{outcome, SVDError, SVDErrorKind, SVDErrorKindView, SVDErrorView};
use crate::parse::{get_text, text_of};
use crate::text::str_eq;
use crate::xml::{Node, NodeView};
use vstd::prelude::*;
use vstd::string::*;

verus! {

/// What software may do with a register or field.
#[derive(Clone, Copy, Debug, PartialEq, Eq)]
pub enum Access {
    ReadOnly,
    ReadWrite,
    ReadWriteOnce,
    WriteOnce,
    WriteOnly,
}

impl DeepView for Access {
    type V = Access;

    open spec fn deep_view(&self) -> Access {
        *self
    }
}

impl View for Access {
    type V = Access;

    open spec fn view(&self) -> Access {
        *self
    }
}

/// The access right that a text names.
pub open spec fn access_named(t: Seq<char>) -> Option<Access> {
    if t == "read-only"@ {
        Some(Access::ReadOnly)
    } else if t == "read-write"@ {
        Some(Access::ReadWrite)
    } else if t == "read-writeOnce"@ {
        Some(Access::ReadWriteOnce)
    } else if t == "write-only"@ {
        Some(Access::WriteOnly)
    } else if t == "writeOnce"@ {
        Some(Access::WriteOnce)
    } else {
        None
    }
}

/// The access right in the text of a node.
pub open spec fn spec_access(n: NodeView) -> Result<Access, SVDErrorView> {
    match text_of(n) {
        Err(e) => Err(e),
        Ok(t) => match access_named(t) {
            Some(a) => Ok(a),
            None => Err(SVDErrorView::new(SVDErrorKindView::UnknownAccessType(n))),
        },
    }
}

/// The access right in the child `access`, `None` where there is no such
/// child.
pub open spec fn child_access_opt(n: NodeView) -> Result<Option<Access>, SVDErrorView> {
    match n.child("access"@) {
        None => Ok(None),
        Some(c) => match spec_access(c) {
            Ok(a) => Ok(Some(a)),
            Err(e) => Err(e),
        },
    }
}

impl Access {
    /// Decodes the access right in the text of `node`.
    pub fn parse(node: &Node) -> (r: Result<Access, SVDError>)
        ensures
            outcome(r) == spec_access(node@),
    {
        let text = match get_text(node) {
            Err(e) => { return Err(e); },
            Ok(t) => t,
        };
        let t = text.as_str();
        if str_eq(t, "read-only") {
            Ok(Access::ReadOnly)
        } else if str_eq(t, "read-write") {
            Ok(Access::ReadWrite)
        } else if str_eq(t, "read-writeOnce") {
            Ok(Access::ReadWriteOnce)
        } else if str_eq(t, "write-only") {
            Ok(Access::WriteOnly)
        } else if str_eq(t, "writeOnce") {
            Ok(Access::WriteOnce)
        } else {
            Err(SVDError::new(SVDErrorKind::UnknownAccessType(node.clone())))
        }
    }

    /// Decodes the child `access` of `node`, if there is one.
    pub fn parse_child(node: &Node) -> (r: Result<Option<Access>, SVDError>)
        ensures
            outcome(r) == child_access_opt(node@),
    {
        match node.get_child("access") {
            None => Ok(None),
            Some(c) => match Access::parse(c) {
                Ok(a) => Ok(Some(a)),
                Err(e) => Err(e),
            },
        }
    }
}

} // verus!
