[package]
name = "orbit"
version = "0.1.1"
edition = "2021"
publish = false

[dependencies]
async-channel = "=2.5.0"
clap = { version = "=4.6.7", features = ["derive"] }
env_logger = "=0.11.11"
log = "=0.4.34"
serde = { version = "=1.0.229", features = ["derive"] }
tokio = { version = "=1.54.1", features = ["full"] }
toml = "=1.1.8"
uuid = { version = "=1.29.0", features = ["v4"] }
zbus = "=5.19.0"
