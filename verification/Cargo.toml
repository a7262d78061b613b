[package]
name = "ftx_ws"
version = "0.1.0"
edition = "2021"
publish = false

[dependencies]
hex = "0.4"
hmac-sha256 = "1"
serde = { version = "1", features = ["derive"] }
serde_json = "1"
futures = "0.3"
tokio = { version = "1", features = ["net", "time", "rt", "macros"] }
tokio-tungstenite = "*"
