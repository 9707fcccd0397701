[package]
name = "dcc_api_core"
version = "0.1.0"
edition = "2021"
publish = false

[dependencies]
hex = "=0.4.3"
serde_json = "=1.0.154"
csv = "=1.4.0"
serde = { version = "=1.0.229", features = ["derive"] }
anyhow = "=1.0.104"
chrono = { version = "=0.4.45", features = ["serde"] }
uuid = { version = "=1.29.0", features = ["v4"] }
tokio = { version = "=1.54.1", features = ["macros", "rt-multi-thread"] }
tracing = "=0.1.44"
sqlx = { version = "=0.8.6", default-features = false, features = ["runtime-tokio", "postgres", "chrono", "json", "derive"] }
