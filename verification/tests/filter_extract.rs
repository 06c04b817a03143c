//! Tests for the manufacturer-data filter and the property extractor.

use ble_probe_scan::filter::{get_manufacturer_data, ManufacturerData, COMBUSTION_VENDOR_ID};
use ble_probe_scan::properties::{
    extract_properties, get_peripheral_properties, AddressKind, DeviceAddress,
    PropertiesError, RawProperties,
};
use std::collections::HashMap;

fn raw_with_manufacturer_data(manufacturer_data: HashMap<u16, Vec<u8>>) -> RawProperties {
    RawProperties {
        address: DeviceAddress { octets: [0x11, 0x22, 0x33, 0x44, 0x55, 0x66] },
        address_type: Some(AddressKind::Public),
        local_name: Some(String::from("Probe")),
        tx_power_level: Some(-4),
        rssi: Some(-60),
        manufacturer_data,
        service_data: HashMap::new(),
        services: vec![0x1809u128],
        class: Some(0x1F00),
    }
}

#[test]
fn vendor_key_present_returns_match() {
    let mut m: HashMap<u16, Vec<u8>> = HashMap::new();
    m.insert(COMBUSTION_VENDOR_ID, vec![1, 2, 3]);
    let r = get_manufacturer_data(&m);
    assert_eq!(r.vendor_id, Some(COMBUSTION_VENDOR_ID));
    assert_eq!(r.vendor_id, Some(0x09C7));
}

#[test]
fn vendor_key_present_among_others_returns_match() {
    let mut m: HashMap<u16, Vec<u8>> = HashMap::new();
    m.insert(0x0001, vec![9]);
    m.insert(COMBUSTION_VENDOR_ID, vec![]);
    m.insert(0xFFFF, vec![0, 0]);
    let r = get_manufacturer_data(&m);
    assert_eq!(r.vendor_id, Some(COMBUSTION_VENDOR_ID));
}

#[test]
fn vendor_key_absent_returns_no_match() {
    let mut m: HashMap<u16, Vec<u8>> = HashMap::new();
    m.insert(0x004C, vec![1]);
    m.insert(0x09C8, vec![2]);
    let r = get_manufacturer_data(&m);
    assert_eq!(r.vendor_id, None);
}

#[test]
fn empty_mapping_returns_no_match() {
    let m: HashMap<u16, Vec<u8>> = HashMap::new();
    let r = get_manufacturer_data(&m);
    assert_eq!(r.vendor_id, None);
}

#[test]
fn absent_power_fields_default_to_zero() {
    let mut raw = raw_with_manufacturer_data(HashMap::new());
    raw.tx_power_level = None;
    raw.rssi = None;
    let snapshot = extract_properties(raw);
    assert_eq!(snapshot.tx_power_level, 0);
    assert_eq!(snapshot.rssi, 0);
}

#[test]
fn present_power_fields_are_kept() {
    let raw = raw_with_manufacturer_data(HashMap::new());
    let snapshot = extract_properties(raw);
    assert_eq!(snapshot.tx_power_level, -4);
    assert_eq!(snapshot.rssi, -60);
}

#[test]
fn extractor_copies_plain_fields_and_filters_manufacturer_data() {
    let mut m: HashMap<u16, Vec<u8>> = HashMap::new();
    m.insert(COMBUSTION_VENDOR_ID, vec![7]);
    let mut service_data: HashMap<u128, Vec<u8>> = HashMap::new();
    service_data.insert(0x180Au128, vec![4, 5]);
    let raw = RawProperties {
        address: DeviceAddress { octets: [1, 2, 3, 4, 5, 6] },
        address_type: Some(AddressKind::Random),
        local_name: Some(String::from("Predictive Probe")),
        tx_power_level: Some(8),
        rssi: Some(-42),
        manufacturer_data: m,
        service_data: service_data.clone(),
        services: vec![0x180Au128, 0x1809u128],
        class: None,
    };
    let snapshot = extract_properties(raw);
    assert_eq!(snapshot.address, DeviceAddress { octets: [1, 2, 3, 4, 5, 6] });
    assert_eq!(snapshot.address_type, Some(AddressKind::Random));
    assert_eq!(snapshot.local_name, Some(String::from("Predictive Probe")));
    assert_eq!(snapshot.tx_power_level, 8);
    assert_eq!(snapshot.rssi, -42);
    assert_eq!(
        snapshot.manufacturer_data,
        ManufacturerData { vendor_id: Some(COMBUSTION_VENDOR_ID) }
    );
    assert_eq!(snapshot.service_data, service_data);
    assert_eq!(snapshot.services, vec![0x180Au128, 0x1809u128]);
    assert_eq!(snapshot.class, None);
}

#[test]
fn missing_property_data_is_an_error() {
    let r = get_peripheral_properties(None);
    assert_eq!(r, Err(PropertiesError::NoProperties));
}

#[test]
fn fetched_property_data_yields_a_snapshot() {
    let raw = raw_with_manufacturer_data(HashMap::new());
    let r = get_peripheral_properties(Some(raw));
    let snapshot = r.expect("a fetched property set must yield a snapshot");
    assert_eq!(snapshot.manufacturer_data.vendor_id, None);
    assert_eq!(snapshot.tx_power_level, -4);
}
