[package]
name = "blog_api"
version = "0.1.0"
edition = "2021"
publish = false

[dependencies]
bcrypt = "*"
jsonwebtoken = "9"
axum = "0.8"
tokio = { version = "1", features = ["rt-multi-thread", "macros", "net"] }
sqlx = { version = "0.8", default-features = false, features = ["postgres", "runtime-tokio", "chrono", "macros"] }
redis = "*"
serde = { version = "1", features = ["derive"] }
serde_json = "1"
chrono = { version = "0.4", features = ["serde"] }
tracing = "0.1"
tracing-subscriber = { version = "0.3", features = ["env-filter"] }
tracing-appender = "0.2"
tower-http = { version = "0.6", features = ["cors", "compression-gzip", "catch-panic", "trace", "request-id"] }
