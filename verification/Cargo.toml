[package]
name = "membership_registry"
version = "0.1.0"
edition = "2021"
publish = false

[dependencies]
ammonia = "4"
regex = "1"
uuid = { version = "1", features = ["v4", "serde"] }
chrono = { version = "0.4", features = ["serde"] }
serde = { version = "1", features = ["derive"] }
serde_json = "1"
tokio = { version = "1", features = ["full"] }
tokio-util = "0.7"
async-trait = "0.1"
sqlx = { version = "0.8", default-features = false, features = ["runtime-tokio", "postgres", "chrono", "uuid", "json"] }
reqwest = { version = "0.12", default-features = false, features = ["json", "rustls-tls"] }
axum = "0.8"
axum-extra = { version = "0.10", features = ["cookie"] }
moka = { version = "0.12", features = ["future"] }
jsonwebtoken = "9"
tracing = "0.1"
tracing-subscriber = { version = "0.3", features = ["env-filter"] }
dotenvy = "0.15"
envconfig = "*"
tokio-cron-scheduler = "*"
chrono-tz = "*"
