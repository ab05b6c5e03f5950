[package]
name = "vallen_engine"
version = "0.1.0"
edition = "2021"
publish = false

[dependencies]
cgmath = "0.18"

[dev-dependencies]
quickcheck = { version = "1", default-features = false }
