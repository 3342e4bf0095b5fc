[package]
name = "radar_core"
version = "0.1.0"
edition = "2021"
publish = false

[dependencies]
anyhow = "1"
axum = { version = "0.7", features = ["ws"] }
bytes = "1"
chrono = "0.4"
config = "0.14"
env_logger = "0.11"
log = "0.4"
ndarray = "0.15"
opencv = "*"
serde = { version = "1", features = ["derive"] }
serde_json = "1"
tokio = { version = "1", features = ["full"] }
tokio-stream = "0.1"
toml = "0.8"
tower-http = { version = "0.5", features = ["cors"] }
