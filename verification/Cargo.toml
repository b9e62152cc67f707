[package]
name = "combat_ductus"
version = "0.1.0"
edition = "2021"
publish = false

[dependencies]
serde = { version = "=1.0.229", features = ["derive"] }
serde_json = "=1.0.154"
tokio = { version = "=1.54.1", features = ["rt-multi-thread", "net", "sync"] }
tokio-tungstenite = "=0.30.0"
futures-util = "=0.3.34"
crossbeam-channel = "=0.5.17"
ewebsock = "=0.8.0"
bevy = { version = "=0.19.1", default-features = false, features = ["bevy_state"] }
