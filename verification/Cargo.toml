[package]
name = "performance_monitor"
version = "0.1.0"
edition = "2021"
publish = false

[dependencies]
human_bytes = "0.4"
log = "0.4"
parking_lot = "0.12"
sysinfo = { version = "0.31", default-features = false, features = ["system"] }
