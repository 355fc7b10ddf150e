//! Byte order of a processor.

use crate::error::{outcome, SVDError, SVDErrorKind, SVDErrorKindView, SVDErrorView};
use crate::parse::{get_text, text_of};
use crate::text::str_eq;
use crate::xml::{Node, NodeView};
use vstd::prelude::*;
use vstd::string::*;

verus! {

/// The byte order of a processor.
#[derive(Clone, Copy, Debug, PartialEq, Eq)]
pub enum Endian {
    Little,
    Big,
    Selectable,
    Other,
}

impl DeepView for Endian {
    type V = Endian;

    open spec fn deep_view(&self) -> Endian {
        *self
    }
}

impl View for Endian {
    type V = Endian;

    open spec fn view(&self) -> Endian {
        *self
    }
}

/// The byte order that a text names.
pub open spec fn endian_named(t: Seq<char>) -> Option<Endian> {
    if t == "little"@ {
        Some(Endian::Little)
    } else if t == "big"@ {
        Some(Endian::Big)
    } else if t == "selectable"@ {
        Some(Endian::Selectable)
    } else if t == "other"@ {
        Some(Endian::Other)
    } else {
        None
    }
}

/// The byte order in the text of a node.
pub open spec fn spec_endian(n: NodeView) -> Result<Endian, SVDErrorView> {
    match text_of(n) {
        Err(e) => Err(e),
        Ok(t) => match endian_named(t) {
            Some(a) => Ok(a),
            None => Err(SVDErrorView::new(SVDErrorKindView::UnknownEndian(t))),
        },
    }
}

impl Endian {
    /// Decodes the byte order in the text of `node`.
    pub fn parse(node: &Node) -> (r: Result<Endian, SVDError>)
        ensures
            outcome(r) == spec_endian(node@),
    {
        let text = match get_text(node) {
            Err(e) => { return Err(e); },
            Ok(t) => t,
        };
        let t = text.as_str();
        if str_eq(t, "little") {
            Ok(Endian::Little)
        } else if str_eq(t, "big") {
            Ok(Endian::Big)
        } else if str_eq(t, "selectable") {
            Ok(Endian::Selectable)
        } else if str_eq(t, "other") {
            Ok(Endian::Other)
        } else {
            Err(SVDError::new(SVDErrorKind::UnknownEndian(text)))
        }
    }
}

} // verus!
