[package]
name = "counter_service"
version = "0.1.0"
edition = "2021"
publish = false

[dependencies]
axum = "*"
lambda_http = "*"
serde = { version = "*", features = ["derive"] }
serde_json = "*"
tokio = { version = "*", features = ["macros", "rt-multi-thread"] }
