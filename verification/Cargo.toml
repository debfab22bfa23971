[package]
name = "user_service"
version = "0.1.0"
edition = "2021"
publish = false

[dependencies]
uuid = { version = "*", features = ["v4"] }
serde = { version = "*", features = ["derive"] }
axum = "*"
tokio = { version = "*", features = ["rt-multi-thread", "macros", "net", "sync"] }
sqlx = { version = "*", features = ["postgres", "runtime-tokio"], default-features = false }
anyhow = "*"
dotenvy = "*"
tracing = "*"
tracing-subscriber = "*"
