[package]
name = "auth_service"
version = "0.1.0"
edition = "2021"
publish = false

[dependencies]
validator = "*"
axum = "*"
axum-extra = { version = "*", features = ["cookie"] }
tokio = { version = "*", features = ["full"] }
serde = { version = "*", features = ["derive"] }
serde_json = "*"
tower-http = { version = "*", features = ["cors", "fs"] }
redis = "*"

[dev-dependencies]
fake = "*"
