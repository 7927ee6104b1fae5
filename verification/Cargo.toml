[package]
name = "sentinel_rs"
version = "0.1.0"
edition = "2021"
publish = false

[dependencies]
chrono = "0.4"
env_logger = "0.11"
hostname = "0.4"
log = "0.4"
reqwest = { version = "0.12", features = ["blocking", "json"] }
serde_json = "1"
