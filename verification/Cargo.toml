[package]
name = "alpaca_api_client"
version = "0.1.0"
edition = "2021"
publish = false

[dependencies]
serde = { version = "1", features = ["derive"] }
serde_json = "1"
ureq = { version = "2", features = ["json"] }
tungstenite = { version = "0.21", features = ["native-tls"] }
dotenvy = "0.15"
