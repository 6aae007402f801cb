[package]
name = "heart_rate_bridge"
version = "0.1.0"
edition = "2021"
publish = false

[dependencies]
actix-cors = "*"
actix-files = "*"
actix-web = "*"
actix-ws = "*"
bluest = "*"
env_logger = "*"
futures-lite = "*"
log = "*"
serde = { version = "1", features = ["derive"] }
serde_json = "1"
tokio = { version = "1", features = ["sync", "time", "macros", "rt"] }
