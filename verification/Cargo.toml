[package]
name = "traffic_audit"
version = "0.1.0"
edition = "2021"
publish = false

[dependencies]
regex = "1"
url = "2"
urlencoding = "2"
axum = "0.7"
dns-lookup = "2"
maxminddb = "0.24"
serde = { version = "1", features = ["derive"] }
serde_json = "1"
socketioxide = "0.15"
tokio = { version = "1", features = ["full"] }
tower-http = { version = "0.5", features = ["fs"] }
tracing = "0.1"
tracing-subscriber = "0.3"
