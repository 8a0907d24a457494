[package]
name = "tss_ed25519"
version = "0.1.0"
edition = "2021"
publish = false

[dependencies]
frost-ed25519 = "=3.0.0"
rand = "=0.8.8"
base64 = "=0.23.1"
serde = { version = "1", features = ["derive"] }
serde_json = "1"
