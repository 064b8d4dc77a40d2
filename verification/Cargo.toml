[package]
name = "sidecar_supervisor"
version = "0.1.0"
edition = "2021"
publish = false

[dependencies]
serde_json = "=1.0.154"
reqwest = { version = "=0.12.28", default-features = false }
tokio = { version = "1", default-features = false, features = ["sync"] }
windows = { version = "=0.58.0", features = ["Win32_Foundation", "Win32_Security", "Win32_System_JobObjects"] }
