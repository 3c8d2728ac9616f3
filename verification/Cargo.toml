[package]
name = "ble_dut"
version = "0.1.0"
edition = "2021"
publish = false

[dependencies]
embassy-sync = "=0.8.0"
embassy-futures = "=0.1.2"
embassy-time = "=0.5.1"
embassy-executor = "=0.9.1"
defmt = "=1.2.0"
static_cell = "=2.1.1"
