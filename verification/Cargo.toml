[package]
name = "synker"
version = "0.1.0"
edition = "2021"
publish = false

[dependencies]
askama = "0.14"
axum = { version = "0.8", features = ["multipart"] }
chrono = "0.4"
dotenvy = "0.15"
git2 = { version = "0.20", default-features = false }
notify = "8"
serde = { version = "1", features = ["derive"] }
serde_json = "1"
tokio = { version = "1", features = ["full"] }
tower-http = { version = "0.6", features = ["fs"] }
tracing = "0.1"
tracing-subscriber = { version = "0.3", features = ["env-filter"] }
uuid = { version = "1", features = ["v4", "serde"] }
