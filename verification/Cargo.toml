[package]
name = "amm"
version = "0.1.0"
edition = "2021"
publish = false

[dependencies]
near-sdk = { version = "=4.1.1", default-features = false }
near-contract-standards = "=4.1.1"
near-account-id = "=0.15.0"
rust_decimal = "=1.43.0"
serde_json = "=1.0.154"
anyhow = "=1.0.104"
near-units = "=0.2.0"
tokio = { version = "=1.54.1", features = ["full"] }
workspaces = { version = "=0.7.0", default-features = false }
