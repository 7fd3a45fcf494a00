[package]
name = "liveview"
version = "0.1.0"
edition = "2021"
publish = false

[dependencies]
url = "*"
chrono = "*"
axum = "*"
socketioxide = "*"
tokio = { version = "*", features = ["fs", "macros", "net", "rt-multi-thread", "sync", "time"] }
reqwest = { version = "*", default-features = false, features = ["json", "rustls-tls"] }
serde = { version = "*", features = ["derive"] }
serde_json = "*"
futures-util = "*"
