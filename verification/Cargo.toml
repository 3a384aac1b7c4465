[package]
name = "rig-fastembed"
version = "0.1.0"
edition = "2021"
publish = false

[dependencies]
fastembed = { version = "=4.4.0", default-features = false, features = ["ort-load-dynamic", "online"] }
ort-sys = { version = "=2.0.0-rc.9", default-features = false }
rig-core = "=0.9.1"
