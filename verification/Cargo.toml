[package]
name = "playground_service"
version = "0.1.0"
edition = "2021"
publish = false

[dependencies]
sha2 = "0.10"
base64 = "0.13"
axum = "0.5"
tokio = { version = "1", features = ["fs", "process", "rt-multi-thread", "macros", "sync", "time"] }
tower-http = { version = "0.3", features = ["cors"] }
reqwest = { version = "0.11", default-features = false, features = ["json", "rustls-tls"] }
serde = { version = "1", features = ["derive"] }
serde_json = "1"
anyhow = "1"

[dev-dependencies]
bincode = "1.3"
