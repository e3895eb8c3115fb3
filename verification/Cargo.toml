[package]
name = "stream_client"
version = "0.1.0"
edition = "2021"
publish = false

[dependencies]
serde_json = "1"
log = "0.4"
url = "2"
futures-util = "0.3"
tokio = { version = "1", features = ["rt-multi-thread", "time"] }
tokio-tungstenite = "*"
