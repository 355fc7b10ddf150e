//! A decoder for CMSIS-SVD device descriptions: from the XML text of a
//! description to a typed tree of device, peripherals, registers, clusters
//! and fields.

pub mod cluster;
pub mod defaults;
pub mod device;
pub mod dim;
pub mod error;
pub mod field;
pub mod parse;
pub mod peripheral;
pub mod register;
pub mod svd;
pub mod text;
pub mod xml;

pub use crate::cluster::{Cluster, ClusterInfo, RegisterCluster};
pub use crate::defaults::Defaults;
pub use crate::device::Device;
pub use crate::dim::RegisterClusterArrayInfo;
pub use crate::error::{SVDError, SVDErrorKind};
pub use crate::field::Field;
pub use crate::peripheral::Peripheral;
pub use crate::register::{Register, RegisterInfo};
pub use crate::xml::Node;

use crate::device::document_device;
use crate::error::outcome;
use crate::xml::xml_document;
use vstd::prelude::*;

verus! {

/// Parses the contents of a SVD file (XML)
pub fn parse(xml: &str) -> (r: Result<Device, SVDError>)
    ensures
        outcome(r) == document_device(xml_document(xml@)),
        r matches Ok(d) ==> d@.wf(),
{
    Device::parse(xml)
}

} // verus!
