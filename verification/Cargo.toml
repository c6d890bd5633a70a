[package]
name = "usb_relay"
version = "0.1.0"
edition = "2021"
publish = false

[dependencies]
serialport = { version = "4", default-features = false }
tokio = { version = "1", features = ["sync"] }
eframe = { version = "*", default-features = false, features = ["glow"] }
