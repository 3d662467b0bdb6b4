[package]
name = "managed_reports"
version = "0.1.0"
edition = "2021"
publish = false

[dependencies]
jsonwebtoken = "=9.3.1"
serde_json = { version = "=1.0.154", features = ["preserve_order"] }
bcrypt = "=0.15.1"
chrono = { version = "=0.4.45", features = ["serde"] }
serde = { version = "=1.0.229", features = ["derive"] }
uuid = { version = "=1.29.0", features = ["serde", "v4"] }
bincode = "=1.3.3"
anyhow = "=1.0.104"
dotenv = "=0.15.0"
tracing = "=0.1.44"
axum = "=0.7.9"
tokio = { version = "=1.54.1", features = ["rt-multi-thread", "macros", "net"] }
sqlx = { version = "=0.7.4", default-features = false, features = ["postgres", "runtime-tokio", "uuid", "chrono"] }
tower-http = { version = "0.5", features = ["cors", "trace"] }
tower_governor = "0.3"
tracing-subscriber = { version = "0.3", features = ["env-filter", "json"] }
tracing-appender = "0.2"
