[package]
name = "opencode_auth"
version = "0.1.0"
edition = "2021"
publish = false

[dependencies]
serde_json = { version = "=1.0.151", features = ["float_roundtrip"] }
tokio = { version = "=1.53.2", features = ["fs"] }
dirs = "=7.0.0"
anyhow = "=1.0.104"
log = "=0.4.34"
