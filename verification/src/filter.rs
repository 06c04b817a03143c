//! Manufacturer-data filtering: testing a peripheral's advertised
//! manufacturer-data mapping for the target vendor identifier.

use std::collections::HashMap;
use vstd::prelude::*;

verus! {

/// The vendor identifier that advertising peripherals are matched against.
pub const COMBUSTION_VENDOR_ID: u16 = 0x09C7;

/// Result of testing a peripheral's advertised manufacturer data: holds
/// the target vendor identifier when it appears as a key in the mapping,
/// and nothing otherwise.
#[derive(Debug, Clone, Copy, PartialEq, Eq)]
pub struct ManufacturerData {
    pub vendor_id: Option<u16>,
}

impl ManufacturerData {
    /// Whether the advertisement carried the target vendor identifier.
    pub open spec fn is_match(&self) -> bool {
        self.vendor_id is Some
    }
}

/// What the filter returns for a given manufacturer-data mapping: the
/// target vendor identifier when the mapping has it as a key, absent
/// otherwise. Other keys never influence the result.
pub open spec fn spec_vendor_match(m: Map<u16, Vec<u8>>) -> Option<u16> {
    if m.contains_key(COMBUSTION_VENDOR_ID) {
        Some(COMBUSTION_VENDOR_ID)
    } else {
        None
    }
}

/// Test an advertised manufacturer-data mapping for the target vendor
/// identifier. Absence of the key is a negative match, not an error.
pub fn get_manufacturer_data(manufacturer_data_map: &HashMap<u16, Vec<u8>>) -> (r:
    ManufacturerData)
    ensures
        r.vendor_id == spec_vendor_match(manufacturer_data_map@),
        r.is_match() <==> manufacturer_data_map@.contains_key(COMBUSTION_VENDOR_ID),
{
    let vendor_id = if manufacturer_data_map.contains_key(&COMBUSTION_VENDOR_ID) {
        Some(COMBUSTION_VENDOR_ID)
    } else {
        None
    };
    ManufacturerData { vendor_id }
}

} // verus!
