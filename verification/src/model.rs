//! Telling the hardware revisions apart.

use vstd::prelude::*;
use crate::error::Error;
use crate::text::str_eq;

verus! {

/// Hardware revision of a 64drive.
#[derive(Debug, Clone, Copy, PartialEq, Eq, Structural)]
pub enum Model {
    HW1,
    HW2,
    /// A cartridge whose revision could not be told.
    Unknown,
}

/// USB vendor id of the bridge chip on every supported cartridge.
pub const VENDOR_ID: u16 = 0x0403;

/// USB product id of the bridge chip on the first revision.
pub const PRODUCT_ID_HW1: u16 = 0x6010;

/// USB product id of the bridge chip on the second revision.
pub const PRODUCT_ID_HW2: u16 = 0x6014;

/// The revision that a device descriptor stands for, if any.
pub open spec fn model_of(vendor_id: u16, product_id: u16, description: Seq<char>) -> Option<Model> {
    if vendor_id == VENDOR_ID && product_id == PRODUCT_ID_HW1 && description
        == "64drive USB device A"@ {
        Some(Model::HW1)
    } else if vendor_id == VENDOR_ID && product_id == PRODUCT_ID_HW2 && description
        == "64drive USB device"@ {
        Some(Model::HW2)
    } else {
        None
    }
}

/// Identifies the cartridge behind a device descriptor.
///
/// The three values have to match a known cartridge exactly; any other
/// descriptor is a detection failure.
pub fn model(vendor_id: u16, product_id: u16, description: &str) -> (found: Result<Model, Error>)
    ensures
        match model_of(vendor_id, product_id, description@) {
            Some(m) => found == Ok::<Model, Error>(m),
            None => found == Err::<Model, Error>(Error::ModelDetectFailed),
        },
{
    if vendor_id == VENDOR_ID && product_id == PRODUCT_ID_HW1 && str_eq(
        description,
        "64drive USB device A",
    ) {
        Ok(Model::HW1)
    } else if vendor_id == VENDOR_ID && product_id == PRODUCT_ID_HW2 && str_eq(
        description,
        "64drive USB device",
    ) {
        Ok(Model::HW2)
    } else {
        Err(Error::ModelDetectFailed)
    }
}

impl Model {
    /// The name under which a revision is listed.
    pub open spec fn name_spec(self) -> Seq<char> {
        match self {
            Model::HW1 => "64drive HW1"@,
            Model::HW2 => "64drive HW2"@,
            Model::Unknown => "unknown"@,
        }
    }

    /// The name under which a revision is listed.
    pub fn name(&self) -> (text: &'static str)
        ensures
            text@ == self.name_spec(),
    {
        match self {
            Model::HW1 => "64drive HW1",
            Model::HW2 => "64drive HW2",
            Model::Unknown => "unknown",
        }
    }
}

} // verus!
