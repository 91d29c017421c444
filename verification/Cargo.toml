[package]
name = "desktop_ipc"
version = "0.1.0"
edition = "2021"
publish = false

[dependencies]
serde_json = "1"
serde = { version = "1", features = ["derive"] }
tokio = { version = "1", features = ["full"] }
parity-tokio-ipc = "0.9"
futures = "0.3"
dirs = "5"
log = "0.4"
env_logger = "0.11"
anyhow = "1"
thiserror = "1"
