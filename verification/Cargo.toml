[package]
name = "auth_service"
version = "0.1.0"
edition = "2021"
publish = false

[dependencies]
argon2 = "=0.5.3"
jsonwebtoken = "=9.3.1"
chrono = "=0.4.45"
uuid = { version = "=1.27.0", features = ["v4"] }
rand = "=0.8.8"
serde = { version = "=1.0.229", features = ["derive"] }
serde_json = "=1.0.151"
axum = "=0.7.9"
axum-extra = { version = "=0.9.6", features = ["cookie"] }
tokio = { version = "=1.53.2", features = ["rt-multi-thread", "macros", "net", "sync"] }
sqlx = { version = "=0.8.6", features = ["postgres", "runtime-tokio"], default-features = false }
redis = "=0.25.5"

[dev-dependencies]
validator = "0.18"
