[package]
name = "key_store"
version = "0.1.0"
edition = "2021"
publish = false

[dependencies]
chrono = "=0.4.45"
serde = { version = "=1.0.229", features = ["derive"] }
serde_json = "=1.0.154"
sqlx = { version = "=0.8.6", default-features = false, features = ["sqlite", "runtime-tokio"] }
tracing = "=0.1.44"
libc = "=0.2.191"
tokio = { version = "=1.54.1", features = ["sync", "time"] }
