[package]
name = "burgonet"
version = "0.1.0"
edition = "2021"
publish = false

[dependencies]
redb = "=4.3.0"
pingora-limits = "=0.9.0"
base64 = "=0.23.1"
flate2 = "=1.1.10"
serde_json = "=1.0.151"
url = "=2.5.8"
tokio = { version = "=1.53.2", features = ["full"] }
reqwest = { version = "=0.13.5", default-features = false }
chrono = { version = "=0.4.45", default-features = false, features = ["clock"] }
serde = { version = "=1.0.229", features = ["derive"] }
serde_yaml = "=0.9.34"
http = "=1.5.0"
bytes = "=1.12.1"
log = "=0.4.34"
env_logger = "=0.11.11"
prometheus = "=0.14.0"
anyhow = "=1.0.104"
hyper = { version = "=1.12.0", features = ["server", "http1"] }
hyper-util = { version = "=0.1.21", features = ["tokio"] }
http-body-util = "=0.1.5"
