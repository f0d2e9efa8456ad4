[package]
name = "inav_msp"
version = "0.1.0"
edition = "2021"
publish = false

[dependencies]
multiwii_serial_protocol = "=0.1.1"
async-std = "=1.13.2"
serialport = { version = "=4.10.1", default-features = false }

[dev-dependencies]
packed_struct = "=0.2.3"
