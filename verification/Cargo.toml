[package]
name = "car_sharing"
version = "0.1.0"
edition = "2021"
publish = false

[dependencies]
near-sdk = { version = "=5.29.1", features = ["non-contract-usage"] }
near-token = "=0.3.6"
serde = { version = "=1.0.229", features = ["derive"] }
schemars = "=1.2.2"
