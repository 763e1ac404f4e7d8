[package]
name = "data_channel"
version = "0.1.0"
edition = "2021"
publish = false

[dependencies]
anyhow = "=1.0.104"
bytes = "=1.12.1"
log = "=0.4.34"
tokio = { version = "=1.54.1", features = ["rt", "sync"] }
webrtc-data = "=0.2.8"
webrtc-sctp = "0.3"
