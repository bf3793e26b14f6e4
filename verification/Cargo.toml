[package]
name = "account_core"
version = "0.1.0"
edition = "2021"
publish = false

[dependencies]
ruma = { version = "0.7", features = ["client-api", "events", "compat"] }
serde_json = { version = "1", features = ["raw_value"] }
