[package]
name = "jest-companion"
version = "0.2.1"
edition = "2021"
publish = false

[dependencies]
anyhow = "1"
axum = "=0.8.9"
clap = { version = "4", features = ["derive"] }
env_logger = "0.11"
fs-err = { version = "3", features = ["tokio"] }
indicatif = "0.18"
indicatif-log-bridge = "0.2"
log = "0.4"
serde = { version = "1", features = ["derive"] }
serde_json = "=1.0.154"
tokio = { version = "1", features = ["full"] }
toml = "=0.8.23"
