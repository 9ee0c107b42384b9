[package]
name = "oslog"
version = "0.1.0"
edition = "2021"
publish = false

[dependencies]
dashmap = "=5.5.3"
log = { version = "=0.4.34", features = ["std"] }
