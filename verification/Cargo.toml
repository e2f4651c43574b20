[package]
name = "cors_proxy"
version = "0.1.0"
edition = "2021"
publish = false

[dependencies]
serde_qs = "0.12"
axum = "0.6"
tokio = { version = "1", features = ["macros", "rt-multi-thread"] }
