[package]
name = "dgc_api"
version = "0.1.0"
edition = "2021"
publish = false

[dependencies]
sawtooth-sdk = "=0.5.2"
rocket = { version = "=0.5.2", features = ["json"] }
serde = { version = "=1.0.229", features = ["derive"] }
validator = { version = "*", features = ["derive"] }
