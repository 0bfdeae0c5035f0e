[package]
name = "sensocto"
version = "0.1.0"
edition = "2021"
publish = false

[dependencies]
chrono = "*"
futures-util = "*"
rand = "*"
serde = { version = "*", features = ["derive"] }
serde_json = "*"
tokio = { version = "*", features = ["rt", "sync", "time", "macros"] }
tokio-tungstenite = "*"
url = "*"
uuid = { version = "*", features = ["v4"] }
