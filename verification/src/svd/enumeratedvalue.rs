//! One named value of a field.

use crate::error::{framed, outcome, SVDError, SVDErrorKind, SVDErrorKindView, SVDErrorView};
use crate::parse::{
    child_flag_opt, child_number_opt, child_text, child_text_opt, get_child_bool_opt,
    get_child_u32_opt,
};
use crate::text::str_eq;
use crate::xml::{Node, NodeView};
use vstd::prelude::*;
use vstd::string::*;

verus! {

/// One named value of a field.
#[derive(Debug, PartialEq, Eq)]
pub struct EnumeratedValue {
    pub name: String,
    pub description: Option<String>,
    pub value: Option<u32>,
    pub is_default: Option<bool>,
}

/// The mathematical model of [`EnumeratedValue`].
pub struct EnumeratedValueView {
    pub name: Seq<char>,
    pub description: Option<Seq<char>>,
    pub value: Option<u32>,
    pub is_default: Option<bool>,
}

impl DeepView for EnumeratedValue {
    type V = EnumeratedValueView;

    open spec fn deep_view(&self) -> EnumeratedValueView {
        EnumeratedValueView {
            name: self.name@,
            description: self.description.deep_view(),
            value: self.value,
            is_default: self.is_default,
        }
    }
}

impl View for EnumeratedValue {
    type V = EnumeratedValueView;

    open spec fn view(&self) -> EnumeratedValueView {
        self.deep_view()
    }
}

impl Clone for EnumeratedValue {
    fn clone(&self) -> (r: EnumeratedValue)
        ensures
            r@ == self@,
    {
        EnumeratedValue {
            name: self.name.clone(),
            description: self.description.clone(),
            value: self.value,
            is_default: self.is_default,
        }
    }
}

/// What an `enumeratedValue` node with the given name holds besides the
/// name.
pub open spec fn enumerated_value_body(n: NodeView, name: Seq<char>) -> Result<
    EnumeratedValueView,
    SVDErrorView,
> {
    match child_text_opt(n, "description"@) {
        Err(e) => Err(e),
        Ok(description) => match child_number_opt(n, "value"@) {
            Err(e) => Err(e),
            Ok(value) => match child_flag_opt(n, "isDefault"@) {
                Err(e) => Err(e),
                Ok(is_default) => Ok(EnumeratedValueView { name, description, value, is_default }),
            },
        },
    }
}

/// The value that an `enumeratedValue` node describes. A failure below the
/// name carries the name in its trail.
pub open spec fn spec_enumerated_value(n: NodeView) -> Result<EnumeratedValueView, SVDErrorView> {
    if n.name != "enumeratedValue"@ {
        Err(SVDErrorView::new(SVDErrorKindView::NotExpectedTag(n, "enumeratedValue"@)))
    } else {
        match child_text(n, "name"@) {
            Err(e) => Err(e),
            Ok(name) => match enumerated_value_body(n, name) {
                Ok(v) => Ok(v),
                Err(e) => Err(e.within("In enumerated value `"@ + name + "`"@)),
            },
        }
    }
}

impl EnumeratedValue {
    /// Decodes the value that the `enumeratedValue` element `node` describes.
    pub fn parse(node: &Node) -> (r: Result<EnumeratedValue, SVDError>)
        ensures
            outcome(r) == spec_enumerated_value(node@),
    {
        if !str_eq(node.name.as_str(), "enumeratedValue") {
            return Err(
                SVDError::new(
                    SVDErrorKind::NotExpectedTag(node.clone(), String::from_str("enumeratedValue")),
                ),
            );
        }
        let name = match node.get_child_text("name") {
            Err(e) => { return Err(e); },
            Ok(v) => v,
        };
        let note = framed("In enumerated value `", name.as_str(), "`");
        match EnumeratedValue::parse_body(node, name) {
            Ok(v) => Ok(v),
            Err(e) => Err(e.within(note)),
        }
    }

    fn parse_body(node: &Node, name: String) -> (r: Result<EnumeratedValue, SVDError>)
        ensures
            outcome(r) == enumerated_value_body(node@, name@),
    {
        let description = match node.get_child_text_opt("description") {
            Err(e) => { return Err(e); },
            Ok(v) => v,
        };
        let value = match get_child_u32_opt("value", node) {
            Err(e) => { return Err(e); },
            Ok(v) => v,
        };
        let is_default = match get_child_bool_opt("isDefault", node) {
            Err(e) => { return Err(e); },
            Ok(v) => v,
        };
        Ok(EnumeratedValue { name, description, value, is_default })
    }
}

} // verus!
