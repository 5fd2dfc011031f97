[package]
name = "mathimage"
version = "0.1.0"
edition = "2021"
publish = false

[dependencies]
arboard = { version = "3", default-features = false }
base64 = "=0.22.1"
dirs-next = "=2.0.0"
futures-util = "=0.3.34"
image = { version = "=0.24.9", default-features = false, features = ["png", "jpeg"] }
reqwest = { version = "=0.12.28", features = ["json", "stream"] }
serde = { version = "=1.0.229", features = ["derive"] }
serde_json = "=1.0.154"
tokio = { version = "=1.54.1", features = ["full"] }
uuid = { version = "=1.29.0", features = ["v4"] }
