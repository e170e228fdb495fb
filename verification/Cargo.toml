[package]
name = "streamdeck-equibop"
version = "0.1.0"
edition = "2021"
publish = false

[dependencies]
openaction = "*"
tokio = { version = "1", features = ["macros", "rt-multi-thread", "net", "sync", "process"] }
tokio-tungstenite = "*"
futures-util = { version = "0.3", features = ["sink"] }
serde = { version = "1", features = ["derive"] }
serde_json = "1"
log = "0.4"
simplelog = "*"
