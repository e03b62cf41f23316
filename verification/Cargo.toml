[package]
name = "mcagent"
version = "0.1.0"
edition = "2021"
publish = false

[dependencies]
anyhow = "*"
base64 = "*"
dotenvy = "*"
futures-util = "*"
java-properties = "*"
rust-mc-status = "*"
serde = { version = "*", features = ["derive"] }
serde_json = "*"
tokio = { version = "*", features = ["full"] }
tokio-tungstenite = "*"
uuid = { version = "*", features = ["v4"] }
