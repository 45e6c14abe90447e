[package]
name = "dify_openai"
version = "0.1.0"
edition = "2021"
publish = false

[dependencies]
anyhow = "1"
axum = "0.7"
dify-client = "*"
dotenvy = "0.15"
env_logger = "0.11"
futures = "0.3"
log = "0.4"
num_cpus = "1"
serde = { version = "1", features = ["derive"] }
serde_json = "1"
strum = { version = "0.26", features = ["derive"] }
tokio = { version = "1", features = ["full"] }
tokio-stream = "0.1"
tower = "0.4"
tower-http = { version = "0.5", features = ["cors"] }
