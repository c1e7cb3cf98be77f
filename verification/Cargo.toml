[package]
name = "glimmer"
version = "0.1.0"
edition = "2021"
publish = false

[dependencies]
config = { version = "=0.13.4", default-features = false, features = ["yaml"] }
serde = { version = "=1.0.229", features = ["derive"] }
serde_json = "=1.0.154"
actix-web = "=4.18.1"
actix-files = "=0.6.10"
redis = { version = "=0.25.5", features = ["tokio-comp"] }
reqwest = { version = "=0.11.27", default-features = false, features = ["json", "rustls-tls"] }
public-ip = "=0.2.2"
async-stream = "=0.3.6"
log = "=0.4.35"
env_logger = "=0.11.11"
anyhow = "=1.0.104"
