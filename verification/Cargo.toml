[package]
name = "water_monitor"
version = "0.1.0"
edition = "2021"
publish = false

[dependencies]
serde = { version = "*", features = ["derive"] }
serde_json = "*"
serialport = { version = "*", default-features = false }
rocket = "*"
local_ipaddress = "*"
