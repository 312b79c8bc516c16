[package]
name = "aditya_crm"
version = "0.1.0"
edition = "2021"
publish = false

[dependencies]
bson = { version = "=2.15.0", features = ["chrono-0_4"] }
chrono = { version = "=0.4.45", features = ["serde"] }
serde = { version = "=1.0.229", features = ["derive"] }
serde_json = "=1.0.154"
mongodb = "=3.9.1"
axum = { version = "=0.8.9", features = ["ws", "multipart"] }
tokio = { version = "=1.54.1", features = ["full"] }
tower-http = { version = "=0.6.11", features = ["cors", "trace"] }
tracing = "=0.1.44"
tracing-subscriber = { version = "=0.3.23", features = ["env-filter"] }
reqwest = { version = "=0.12.28", default-features = false, features = ["json"] }
uuid = { version = "=1.29.0", features = ["v4"] }
anyhow = "=1.0.104"
dotenvy = "=0.15.7"
futures-util = "=0.3.34"
jsonwebtoken = "9"
argon2 = "0.5"
