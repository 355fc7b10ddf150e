//! The processor of a device.

use crate::error::{outcome, SVDError, SVDErrorKind, SVDErrorKindView, SVDErrorView};
use crate::parse::{
    child_flag, child_number, child_of, child_text, get_child_bool, get_child_elem, get_child_u32,
};
use crate::svd::endian::{spec_endian, Endian};
use crate::text::str_eq;
use crate::xml::{Node, NodeView};
use vstd::prelude::*;
use vstd::string::*;

verus! {

/// The processor of a device.
#[derive(Debug, PartialEq, Eq)]
pub struct Cpu {
    pub name: String,
    pub revision: String,
    pub endian: Endian,
    pub mpu_present: bool,
    pub fpu_present: bool,
    pub nvic_priority_bits: u32,
    pub has_vendor_systick: bool,
}

/// The mathematical model of [`Cpu`].
pub struct CpuView {
    pub name: Seq<char>,
    pub revision: Seq<char>,
    pub endian: Endian,
    pub mpu_present: bool,
    pub fpu_present: bool,
    pub nvic_priority_bits: u32,
    pub has_vendor_systick: bool,
}

impl DeepView for Cpu {
    type V = CpuView;

    open spec fn deep_view(&self) -> CpuView {
        CpuView {
            name: self.name@,
            revision: self.revision@,
            endian: self.endian,
            mpu_present: self.mpu_present,
            fpu_present: self.fpu_present,
            nvic_priority_bits: self.nvic_priority_bits,
            has_vendor_systick: self.has_vendor_systick,
        }
    }
}

impl View for Cpu {
    type V = CpuView;

    open spec fn view(&self) -> CpuView {
        self.deep_view()
    }
}

impl Clone for Cpu {
    fn clone(&self) -> (r: Cpu)
        ensures
            r@ == self@,
    {
        Cpu {
            name: self.name.clone(),
            revision: self.revision.clone(),
            endian: self.endian,
            mpu_present: self.mpu_present,
            fpu_present: self.fpu_present,
            nvic_priority_bits: self.nvic_priority_bits,
            has_vendor_systick: self.has_vendor_systick,
        }
    }
}

/// The byte order in the child `endian`, which must be there.
pub open spec fn child_endian(n: NodeView) -> Result<Endian, SVDErrorView> {
    match child_of(n, "endian"@) {
        Err(e) => Err(e),
        Ok(c) => spec_endian(c),
    }
}

/// The processor that a `cpu` node describes.
pub open spec fn spec_cpu(n: NodeView) -> Result<CpuView, SVDErrorView> {
    if n.name != "cpu"@ {
        Err(SVDErrorView::new(SVDErrorKindView::NotExpectedTag(n, "cpu"@)))
    } else {
        match child_text(n, "name"@) {
            Err(e) => Err(e),
            Ok(name) => match child_text(n, "revision"@) {
                Err(e) => Err(e),
                Ok(revision) => match child_endian(n) {
                    Err(e) => Err(e),
                    Ok(endian) => match child_flag(n, "mpuPresent"@) {
                        Err(e) => Err(e),
                        Ok(mpu_present) => match child_flag(n, "fpuPresent"@) {
                            Err(e) => Err(e),
                            Ok(fpu_present) => match child_number(n, "nvicPrioBits"@) {
                                Err(e) => Err(e),
                                Ok(nvic_priority_bits) => match child_flag(
                                    n,
                                    "vendorSystickConfig"@,
                                ) {
                                    Err(e) => Err(e),
                                    Ok(has_vendor_systick) => Ok(
                                        CpuView {
                                            name,
                                            revision,
                                            endian,
                                            mpu_present,
                                            fpu_present,
                                            nvic_priority_bits,
                                            has_vendor_systick,
                                        },
                                    ),
                                },
                            },
                        },
                    },
                },
            },
        }
    }
}

impl Cpu {
    /// Decodes the processor that the `cpu` element `node` describes.
    pub fn parse(node: &Node) -> (r: Result<Cpu, SVDError>)
        ensures
            outcome(r) == spec_cpu(node@),
    {
        if !str_eq(node.name.as_str(), "cpu") {
            return Err(
                SVDError::new(
                    SVDErrorKind::NotExpectedTag(node.clone(), String::from_str("cpu")),
                ),
            );
        }
        let name = match node.get_child_text("name") {
            Err(e) => { return Err(e); },
            Ok(v) => v,
        };
        let revision = match node.get_child_text("revision") {
            Err(e) => { return Err(e); },
            Ok(v) => v,
        };
        let endian = match get_child_elem("endian", node) {
            Err(e) => { return Err(e); },
            Ok(c) => match Endian::parse(c) {
                Err(e) => { return Err(e); },
                Ok(v) => v,
            },
        };
        let mpu_present = match get_child_bool("mpuPresent", node) {
            Err(e) => { return Err(e); },
            Ok(v) => v,
        };
        let fpu_present = match get_child_bool("fpuPresent", node) {
            Err(e) => { return Err(e); },
            Ok(v) => v,
        };
        let nvic_priority_bits = match get_child_u32("nvicPrioBits", node) {
            Err(e) => { return Err(e); },
            Ok(v) => v,
        };
        let has_vendor_systick = match get_child_bool("vendorSystickConfig", node) {
            Err(e) => { return Err(e); },
            Ok(v) => v,
        };
        Ok(
            Cpu {
                name,
                revision,
                endian,
                mpu_present,
                fpu_present,
                nvic_priority_bits,
                has_vendor_systick,
            },
        )
    }

    /// Whether the processor is a Cortex-M: its name begins with `CM`.
    pub fn is_cortex_m(&self) -> (r: bool)
        ensures
            r == (self@.name.len() >= 2 && self@.name[0] == 'C' && self@.name[1] == 'M'),
    {
        let chars = crate::text::chars_of(self.name.as_str());
        chars.len() >= 2 && chars[0] == 'C' && chars[1] == 'M'
    }
}

} // verus!
