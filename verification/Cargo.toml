[package]
name = "axum_jsonwebtoken"
version = "0.1.0"
edition = "2021"
publish = false

[dependencies]
jsonwebtoken = { version = "=11.1.0", features = ["rust_crypto"] }
serde = "=1.0.229"
axum = "=0.8.9"

[dev-dependencies]
serde_json = "=1.0.151"
