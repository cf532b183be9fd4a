[package]
name = "aodata"
version = "0.1.0"
edition = "2021"
publish = false

[dependencies]
async-nats = "0.36"
axum = "0.7"
bytes = "1"
chrono = { version = "0.4", features = ["serde"] }
futures-util = "0.3"
serde = { version = "1", features = ["derive"] }
serde_json = "1"
sqlx = { version = "0.7", default-features = false, features = ["postgres", "runtime-tokio", "chrono", "macros"] }
tokio = { version = "1", features = ["rt-multi-thread", "macros", "sync", "time", "net"] }
tower-http = { version = "0.5", features = ["cors"] }
