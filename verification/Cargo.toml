[package]
name = "labscan_admin"
version = "0.1.0"
edition = "2021"
publish = false

[dependencies]
axum = { version = "0.8", features = ["ws"] }
chrono = "0.4"
futures-util = "0.3"
mdns-sd = "*"
rusqlite = "*"
serde = { version = "1", features = ["derive"] }
serde_json = "1"
socket2 = "*"
tauri = { version = "2", default-features = false }
tokio = { version = "1", features = ["full"] }
tracing = "0.1"
tracing-subscriber = "0.3"
uuid = { version = "1", features = ["v4"] }
