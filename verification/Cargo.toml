[package]
name = "mission_board"
version = "0.1.0"
edition = "2021"
publish = false

[dependencies]
anyhow = "=1.0.104"
axum = { version = "=0.8.9", features = ["ws"] }
chrono = { version = "=0.4.45", features = ["serde"] }
dashmap = "=6.2.1"
diesel = { version = "=2.3.14", features = ["postgres", "r2d2", "chrono"] }
diesel_migrations = "=2.3.2"
futures-util = "=0.3.34"
jsonwebtoken = { version = "9", default-features = false }
serde = { version = "=1.0.229", features = ["derive"] }
serde_json = "=1.0.154"
tokio = { version = "=1.54.1", features = ["sync", "rt-multi-thread", "macros", "net", "signal"] }
tower-http = { version = "=0.6.11", features = ["cors", "fs", "limit", "timeout", "trace"] }
tracing = "=0.1.44"
