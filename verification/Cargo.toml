[package]
name = "eth_rpc_client"
version = "0.1.0"
edition = "2021"
publish = false

[dependencies]
async-trait = "0.1"
ethabi = "18"
ethereum-types = "0.14"
eyre = "0.6"
futures = "0.3"
hex = "0.4"
nanoid = "0.4"
serde = { version = "1", features = ["derive"] }
serde_json = "1"
thiserror = "1"
tokio = { version = "1", features = ["full"] }
tokio-tungstenite = "0.21"
tracing = "0.1"
