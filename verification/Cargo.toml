[package]
name = "a2a_rust"
version = "0.1.0"
edition = "2021"
publish = false

[dependencies]
uuid = { version = "=1.29.0", features = ["v4"] }
chrono = "=0.4.45"
aes-gcm = "=0.10.3"
url = "=2.5.8"
serde = { version = "=1.0.229", features = ["derive"] }
serde_json = "=1.0.154"
tokio = { version = "=1.54.1", features = ["sync", "time", "rt", "macros", "net"] }
futures = "=0.3.34"
async-trait = "=0.1.92"
async-stream = "=0.3.6"
thiserror = "=1.0.69"
axum = "=0.7.9"
reqwest = { version = "=0.12.28", default-features = false, features = ["json", "stream"] }
tower-http = { version = "=0.5.2", features = ["cors", "trace"] }
sqlx = { version = "=0.8.6", default-features = false, features = ["sqlite", "runtime-tokio"] }
tonic = "0.12"
