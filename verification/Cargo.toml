[package]
name = "remote_kernel"
version = "0.1.0"
edition = "2021"
publish = false

[dependencies]
anyhow = "1"
colored = "2"
futures = "0.3"
jupyter-protocol = "0.6"
jupyter-websocket-client = "0.9"
mybinder = "0.1"
serde_json = "1"
