[package]
name = "pubkycore"
version = "0.1.0"
edition = "2021"
publish = false

[dependencies]
base64 = "0.22"
once_cell = "1"
pubky = "0.12"
serde = { version = "1", features = ["derive"] }
serde_json = "1"
tokio = { version = "1", features = ["rt-multi-thread", "time"] }
tracing = "0.1"
url = "2"
