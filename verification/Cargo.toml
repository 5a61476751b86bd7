[package]
name = "router_response"
version = "0.1.0"
edition = "2021"
publish = false

[dependencies]
http = "0.2"
serde_json_bytes = { version = "0.2", features = ["preserve_order"] }
typed-builder = "0.10"

[dev-dependencies]
serde_json = "1"
