[package]
name = "veranda"
version = "0.1.0"
edition = "2021"
publish = false

[dependencies]
ahash = { version = "=0.8.12", default-features = false }
rand = { version = "=0.8.8", default-features = false }
vex-sdk = "*"
vexide-core = "0.7"
vexide-devices = "0.7"
