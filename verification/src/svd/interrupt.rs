//! An interrupt line of a peripheral.

use crate::error::{outcome, SVDError, SVDErrorView};
use crate::parse::{child_number, child_text, child_text_opt, get_child_u32};
use crate::xml::{Node, NodeView};
use vstd::prelude::*;
use vstd::string::*;

verus! {

/// An interrupt line of a peripheral.
#[derive(Debug, PartialEq, Eq)]
pub struct Interrupt {
    pub name: String,
    pub description: Option<String>,
    pub value: u32,
}

/// The mathematical model of [`Interrupt`].
pub struct InterruptView {
    pub name: Seq<char>,
    pub description: Option<Seq<char>>,
    pub value: u32,
}

impl DeepView for Interrupt {
    type V = InterruptView;

    open spec fn deep_view(&self) -> InterruptView {
        InterruptView {
            name: self.name@,
            description: self.description.deep_view(),
            value: self.value,
        }
    }
}

impl View for Interrupt {
    type V = InterruptView;

    open spec fn view(&self) -> InterruptView {
        self.deep_view()
    }
}

impl Clone for Interrupt {
    fn clone(&self) -> (r: Interrupt)
        ensures
            r@ == self@,
    {
        Interrupt {
            name: self.name.clone(),
            description: self.description.clone(),
            value: self.value,
        }
    }
}

/// The interrupt that a node describes: its name, its description if it has
/// one, and its number.
pub open spec fn spec_interrupt(n: NodeView) -> Result<InterruptView, SVDErrorView> {
    match child_text(n, "name"@) {
        Err(e) => Err(e),
        Ok(name) => match child_text_opt(n, "description"@) {
            Err(e) => Err(e),
            Ok(description) => match child_number(n, "value"@) {
                Err(e) => Err(e),
                Ok(value) => Ok(InterruptView { name, description, value }),
            },
        },
    }
}

impl Interrupt {
    /// Decodes the interrupt that `node` describes.
    pub fn parse(node: &Node) -> (r: Result<Interrupt, SVDError>)
        ensures
            outcome(r) == spec_interrupt(node@),
    {
        let name = match node.get_child_text("name") {
            Err(e) => { return Err(e); },
            Ok(v) => v,
        };
        let description = match node.get_child_text_opt("description") {
            Err(e) => { return Err(e); },
            Ok(v) => v,
        };
        let value = match get_child_u32("value", node) {
            Err(e) => { return Err(e); },
            Ok(v) => v,
        };
        Ok(Interrupt { name, description, value })
    }
}

} // verus!
