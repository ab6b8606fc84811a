[package]
name = "backend"
version = "0.1.0"
edition = "2021"
publish = false

[dependencies]
axum = "0.7"
mongodb = "3"
tokio = { version = "1", features = ["full"] }
