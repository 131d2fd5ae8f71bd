[package]
name = "vmark"
version = "0.1.0"
edition = "2021"
publish = false

[dependencies]
chrono = "=0.4.45"
notify = { version = "=8.2.1", default-features = false }
objc2 = "=0.6.5"
objc2-app-kit = "=0.3.2"
objc2-foundation = "=0.3.2"
portable-pty = "=0.9.0"
serde = { version = "=1.0.229", features = ["derive"] }
serde_json = "=1.0.154"
tauri = { version = "=2.12.5", default-features = false }
tempfile = "=3.27.0"
tokio = { version = "=1.54.1", features = ["time", "fs", "sync", "rt"] }
urlencoding = "=2.1.3"
uuid = { version = "=1.29.0", features = ["v4"] }
