[package]
name = "vocab_service"
version = "0.1.0"
edition = "2021"
publish = false

[dependencies]
argon2 = { version = "=0.5.3", features = ["std"] }
axum = { version = "=0.8.9", features = ["macros"] }
chrono = "=0.4.45"
dotenvy = "=0.15.7"
heck = "=0.5.0"
rand = "=0.9.5"
serde = { version = "=1.0.229", features = ["derive"] }
sqlx = { version = "=0.8.6", default-features = false, features = ["derive", "postgres", "runtime-tokio", "time", "uuid"] }
tokio = { version = "=1.54.1", features = ["macros", "net", "rt-multi-thread"] }
tracing = "=0.1.44"
tracing-subscriber = "=0.3.23"
translators = { version = "=0.2.1", features = ["google"] }
uuid = { version = "=1.29.0", features = ["serde", "v4"] }
validator = "=0.20.0"
