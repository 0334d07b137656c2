[package]
name = "wiimote_core"
version = "0.1.0"
edition = "2021"
publish = false

[dependencies]
crc32fast = "1"
crossbeam-channel = "0.5"
