[package]
name = "capi_channel"
version = "0.1.0"
edition = "2021"
publish = false

[dependencies]
futures-util = "*"
serde = { version = "*", features = ["derive"] }
serde_json = "*"
tokio = { version = "*", features = ["sync", "rt", "macros"] }
tokio-stream = "*"
tokio-tungstenite = "*"
