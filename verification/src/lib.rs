//! A verified model of a BLE vendor-probe scanner.
//!
//! The library holds the decision logic of a scan-filter-connect flow:
//! matching advertised manufacturer data against a fixed vendor
//! identifier, resolving optional advertisement fields to defaults, and a
//! state-machine driver that decides, after each platform event, what the
//! Bluetooth stack should be asked to do next. All platform calls
//! (adapter discovery, scanning, property fetches, connect/disconnect)
//! are performed outside the library, which only ever sees their results
//! as plain values.

pub mod driver;
pub mod filter;
pub mod properties;
