[package]
name = "aleo_mining_protocol"
version = "0.1.0"
edition = "2021"
publish = false

[dependencies]
serde_json = "1"
serde = { version = "1", features = ["derive"] }
anyhow = "1"
futures-util = "0.3"
tokio = { version = "1", features = ["sync", "rt", "time", "macros", "net"] }
tokio-tungstenite = "0.20"
