[package]
name = "auth_gate"
version = "0.1.0"
edition = "2021"
publish = false

[dependencies]
axum = "0.7"
dotenvy = "0.15"
env_logger = "0.11"
futures = "0.3"
jsonwebtoken = "9"
lambda_http = "0.13"
postgres = "0.19"
serde = { version = "1", features = ["derive"] }
serde_json = "1"
tokio = { version = "1", features = ["macros", "rt-multi-thread"] }
tower = "0.4"
tower-http = { version = "0.5", features = ["cors"] }
validator = { version = "0.18", features = ["derive"] }
