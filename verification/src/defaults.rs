//! Register properties that hold device-wide unless a register says
//! otherwise.

use crate::error::{outcome, SVDError, SVDErrorView};
use crate::parse::{child_number_opt, get_child_u32_opt};
use crate::svd::access::{child_access_opt, Access};
use crate::xml::{Node, NodeView};
use vstd::prelude::*;

verus! {

/// Register default properties
#[derive(Clone, Copy, Debug, PartialEq, Eq)]
pub struct Defaults {
    pub size: Option<u32>,
    pub reset_value: Option<u32>,
    pub reset_mask: Option<u32>,
    pub access: Option<Access>,
}

impl DeepView for Defaults {
    type V = Defaults;

    open spec fn deep_view(&self) -> Defaults {
        *self
    }
}

impl View for Defaults {
    type V = Defaults;

    open spec fn view(&self) -> Defaults {
        *self
    }
}

/// The default access right of a device: that of its child `access`, and
/// none where there is no such child or where it names no access right.
pub open spec fn default_access(n: NodeView) -> Option<Access> {
    match child_access_opt(n) {
        Ok(a) => a,
        Err(_) => None,
    }
}

/// The defaults that the children `size`, `resetValue`, `resetMask` and
/// `access` of the document root give. A number that cannot be read is a
/// failure.
pub open spec fn spec_defaults(n: NodeView) -> Result<Defaults, SVDErrorView> {
    match child_number_opt(n, "size"@) {
        Err(e) => Err(e),
        Ok(size) => match child_number_opt(n, "resetValue"@) {
            Err(e) => Err(e),
            Ok(reset_value) => match child_number_opt(n, "resetMask"@) {
                Err(e) => Err(e),
                Ok(reset_mask) => Ok(
                    Defaults { size, reset_value, reset_mask, access: default_access(n) },
                ),
            },
        },
    }
}

impl Defaults {
    /// Decodes the device-wide defaults from the document root. An access
    /// right that cannot be read counts as absent; a number that cannot be read
    /// is a failure.
    pub fn parse(node: &Node) -> (r: Result<Defaults, SVDError>)
        ensures
            outcome(r) == spec_defaults(node@),
    {
        let size = match get_child_u32_opt("size", node) {
            Err(e) => { return Err(e); },
            Ok(v) => v,
        };
        let reset_value = match get_child_u32_opt("resetValue", node) {
            Err(e) => { return Err(e); },
            Ok(v) => v,
        };
        let reset_mask = match get_child_u32_opt("resetMask", node) {
            Err(e) => { return Err(e); },
            Ok(v) => v,
        };
        let access = match Access::parse_child(node) {
            Ok(a) => a,
            Err(_) => None,
        };
        Ok(Defaults { size, reset_value, reset_mask, access })
    }
}

} // verus!
