[package]
name = "lidp_unified"
version = "0.1.0"
edition = "2021"
publish = false

[dependencies]
base64 = "0.22"
k256 = { version = "0.13", features = ["ecdsa"] }
serde = { version = "1", features = ["derive"] }
serde_json = "1"
tokio = { version = "1", features = ["fs", "sync", "rt", "macros"] }
