//! Peripheral property snapshots: the advertisement and connection
//! properties the platform stack reports for a discovered peripheral, and
//! the extractor that resolves their optional fields to defaults.

use crate::filter::{get_manufacturer_data, spec_vendor_match, ManufacturerData};
use std::collections::HashMap;
use vstd::prelude::*;

verus! {

/// A six-octet Bluetooth device address.
#[derive(Debug, Clone, Copy, PartialEq, Eq)]
pub struct DeviceAddress {
    pub octets: [u8; 6],
}

/// The kind of Bluetooth device address a peripheral advertises.
#[derive(Debug, Clone, Copy, PartialEq, Eq)]
pub enum AddressKind {
    Public,
    Random,
}

/// Advertisement and connection properties exactly as fetched from the
/// platform stack, before any optional field is resolved. Service
/// identifiers are carried as their 128-bit integer value.
#[derive(Debug, Clone, PartialEq, Eq)]
pub struct RawProperties {
    pub address: DeviceAddress,
    pub address_type: Option<AddressKind>,
    pub local_name: Option<String>,
    pub tx_power_level: Option<i16>,
    pub rssi: Option<i16>,
    pub manufacturer_data: HashMap<u16, Vec<u8>>,
    pub service_data: HashMap<u128, Vec<u8>>,
    pub services: Vec<u128>,
    pub class: Option<u32>,
}

/// A peripheral snapshot: the fetched properties with absent transmit
/// power and signal strength resolved to zero and the manufacturer data
/// reduced to its vendor-match result.
#[derive(Debug, Clone, PartialEq, Eq)]
pub struct PeripheralProperties {
    pub address: DeviceAddress,
    pub address_type: Option<AddressKind>,
    pub local_name: Option<String>,
    pub tx_power_level: i16,
    pub rssi: i16,
    pub manufacturer_data: ManufacturerData,
    pub service_data: HashMap<u128, Vec<u8>>,
    pub services: Vec<u128>,
    pub class: Option<u32>,
}

/// Why a peripheral's snapshot could not be produced.
#[derive(Debug, Clone, Copy, PartialEq, Eq)]
pub enum PropertiesError {
    /// The property fetch succeeded but reported no data.
    NoProperties,
}

/// The snapshot that a set of fetched properties resolves to: every field
/// is carried over unchanged, except that an absent transmit power or
/// signal strength becomes zero and the manufacturer-data mapping is
/// reduced to its vendor-match result.
pub open spec fn spec_extract(raw: RawProperties) -> PeripheralProperties {
    PeripheralProperties {
        address: raw.address,
        address_type: raw.address_type,
        local_name: raw.local_name,
        tx_power_level: match raw.tx_power_level {
            Some(v) => v,
            None => 0i16,
        },
        rssi: match raw.rssi {
            Some(v) => v,
            None => 0i16,
        },
        manufacturer_data: ManufacturerData { vendor_id: spec_vendor_match(raw.manufacturer_data@) },
        service_data: raw.service_data,
        services: raw.services,
        class: raw.class,
    }
}

/// Resolve a set of fetched properties into a snapshot. Defaulting of the
/// two optional power fields happens here and nowhere else.
pub fn extract_properties(raw: RawProperties) -> (r: PeripheralProperties)
    ensures
        r == spec_extract(raw),
{
    let manufacturer_data = get_manufacturer_data(&raw.manufacturer_data);
    let tx_power_level = match raw.tx_power_level {
        Some(v) => v,
        None => 0,
    };
    let rssi = match raw.rssi {
        Some(v) => v,
        None => 0,
    };
    PeripheralProperties {
        address: raw.address,
        address_type: raw.address_type,
        local_name: raw.local_name,
        tx_power_level,
        rssi,
        manufacturer_data,
        service_data: raw.service_data,
        services: raw.services,
        class: raw.class,
    }
}

/// Produce a peripheral's snapshot from the result of a property fetch.
/// A fetch that reported no data is an unrecoverable error for that
/// peripheral, propagated to the caller; it is never retried.
pub fn get_peripheral_properties(fetched: Option<RawProperties>) -> (r: Result<
    PeripheralProperties,
    PropertiesError,
>)
    ensures
        fetched matches Some(raw) ==> r == Ok::<PeripheralProperties, PropertiesError>(
            spec_extract(raw),
        ),
        fetched is None ==> r == Err::<PeripheralProperties, PropertiesError>(
            PropertiesError::NoProperties,
        ),
{
    match fetched {
        Some(raw) => Ok(extract_properties(raw)),
        None => Err(PropertiesError::NoProperties),
    }
}

} // verus!
