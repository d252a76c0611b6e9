[package]
name = "eneftigo"
version = "0.1.0"
edition = "2021"
publish = false

[dependencies]
chrono = "=0.4.45"
url = "=2.5.8"
near-sdk = { version = "=5.30.0", features = ["non-contract-usage"] }
near-contract-standards = "=5.30.0"
