[package]
name = "rpc_provider"
version = "0.1.0"
edition = "2021"
publish = false

[dependencies]
url = "*"
serde = { version = "*", features = ["derive"] }
serde_json = { version = "*", features = ["raw_value"] }
jsonrpsee = { version = "*", features = ["ws-client", "http-client"] }
jsonrpsee-http-client = "*"
smoldot-light = "*"
futures = "*"
either = "*"
tokio = { version = "*", features = ["rt", "macros"] }
