[package]
name = "auramatch"
version = "0.1.0"
edition = "2021"
publish = false

[dependencies]
anyhow = "*"
argon2 = "*"
axum = "*"
dotenvy = "*"
serde = { version = "*", features = ["derive"] }
sqlx = { version = "*", default-features = false, features = ["runtime-tokio", "sqlite"] }
thiserror = "*"
time = "*"
tokio = { version = "*", features = ["rt-multi-thread", "macros", "net"] }
tower-cookies = "*"
tower-http = { version = "*", features = ["cors", "fs", "trace"] }
tracing = "*"
tracing-subscriber = { version = "*", features = ["env-filter"] }
uuid = { version = "*", features = ["v4"] }
