[package]
name = "soma"
version = "0.1.0"
edition = "2021"
publish = false

[dependencies]
serde = { version = "1", features = ["derive"] }
serde_json = "1"
base64 = "0.22"
uuid = { version = "1", features = ["v4"] }
dirs = "5"
portable-pty = "0.8"
tokio = { version = "1", default-features = false, features = ["rt", "time", "net"] }
tracing = "0.1"
