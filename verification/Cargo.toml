[package]
name = "ble_peripheral"
version = "0.1.0"
edition = "2021"
publish = false

[dependencies]
embassy-futures = "*"
embassy-sync = "*"
embassy-time = "*"
log = "*"
trouble-host = "*"
