[package]
name = "ble_probe_scan"
version = "0.1.0"
edition = "2021"
publish = false

[dependencies]
btleplug = "*"
tokio = { version = "*", features = ["rt-multi-thread", "macros", "time"] }
uuid = "*"
