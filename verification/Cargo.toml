[package]
name = "smsly_gateway"
version = "0.1.0"
edition = "2021"
publish = false

[dependencies]
constant_time_eq = "*"
serde_json = "*"
serde = { version = "*", features = ["derive"] }
axum = "*"
tokio = { version = "*", features = ["rt-multi-thread", "macros"] }
redis = { version = "*", features = ["tokio-comp", "script"] }
sqlx = { version = "*", default-features = false, features = ["runtime-tokio", "postgres"] }
dotenvy = "*"
tracing = "*"
tracing-subscriber = "*"
uuid = { version = "*", features = ["v4"] }
lazy_static = "*"
thiserror = "*"
