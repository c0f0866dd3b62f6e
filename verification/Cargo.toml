[package]
name = "reconnect_t"
version = "0.1.0"
edition = "2021"
publish = false

[dependencies]
rand = "0.8"
tokio = { version = "1", features = ["sync", "net", "time", "rt", "macros"] }
tokio-tungstenite = "*"
futures-util = "0.3"
tokio-stream = "0.1"
async-trait = "*"
eyre = "*"
tracing = "*"
