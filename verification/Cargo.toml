[package]
name = "os_monitor"
version = "0.1.0"
edition = "2021"
publish = false

[dependencies]
tokio = { version = "1", features = ["sync"], default-features = false }
serde = { version = "1", features = ["derive"] }
log = "0.4"
env_logger = "*"
