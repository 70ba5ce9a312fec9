[package]
name = "typr"
version = "0.1.0"
edition = "2021"
publish = false

[dependencies]
serde = { version = "1", features = ["derive"] }
serde_json = "1"
base64 = "0.22"
reqwest = { version = "0.12", default-features = false, features = ["json", "rustls-tls", "stream"] }
hound = "3"
dirs = "*"
futures-util = "0.3"
arboard = "3"
cpal = "0.15"
