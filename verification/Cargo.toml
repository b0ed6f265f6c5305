[package]
name = "import_http"
version = "0.1.0"
edition = "2021"
publish = false

[dependencies]
anyhow = "1"
axum = "0.8"
env_logger = "0.11"
http-serde = "2"
log = "0.4"
postcard = { version = "1", features = ["use-std"] }
reqwest = { version = "0.12", default-features = false }
serde = { version = "1", features = ["derive"] }
serde_json = "1"
tokio = { version = "1", features = ["full"] }
tokio-util = { version = "0.7", features = ["rt"] }
toml = "0.8"
uuid = { version = "1", features = ["v4", "serde"] }
