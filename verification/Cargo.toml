[package]
name = "event_dispatch"
version = "0.1.0"
edition = "2021"
publish = false

[dependencies]
base64 = "=0.21.7"
futures = "=0.3.34"
reqwest = { version = "=0.11.27", default-features = false, features = ["multipart"] }
serde = { version = "=1.0.229", features = ["derive"] }
serde_json = "=1.0.154"
tokio = { version = "=1.54.1", features = ["rt", "sync", "time", "fs", "io-util"] }
tokio-tungstenite = "=0.20.1"
tracing = "=0.1.44"
url = "=2.5.8"
