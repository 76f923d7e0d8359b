[package]
name = "user_info_middleware"
version = "0.1.0"
edition = "2021"
publish = false

[dependencies]
axum = { version = "0.8", default-features = false }
base64 = "0.22"
log = "0.4"
serde_json = "1"
