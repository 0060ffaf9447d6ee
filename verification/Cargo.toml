[package]
name = "friendlyfire"
version = "0.1.0"
edition = "2021"
publish = false

[dependencies]
url = "=2.5.8"
rand = "=0.8.8"
axum = { version = "=0.7.9", features = ["ws"] }
tokio = { version = "=1.54.1", features = ["full"] }
tokio-util = { version = "=0.7.20", features = ["io"] }
serde = { version = "=1.0.229", features = ["derive"] }
serde_json = "=1.0.154"
