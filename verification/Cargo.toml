[package]
name = "sample_app"
version = "0.1.0"
edition = "2021"
publish = false

[dependencies]
anyhow = "1"
argon2 = { version = "0.5", features = ["std"] }
askama = "0.12"
axum = "0.8"
base64 = "0.22"
dotenvy = "0.15"
futures-util = "0.3"
http = "1"
rdkafka = "0.36"
serde = { version = "1", features = ["derive"] }
serde_json = "1"
sqlx = { version = "0.8", default-features = false, features = ["runtime-tokio", "sqlite", "macros", "migrate"] }
tokio = { version = "1", features = ["full"] }
tower-http = { version = "0.6", features = ["trace", "fs", "set-header"] }
tower-sessions = { version = "0.14", features = ["signed"] }
tracing = "0.1"
tracing-subscriber = { version = "0.3", features = ["env-filter"] }
