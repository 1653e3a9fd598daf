[package]
name = "bidibip"
version = "0.1.0"
edition = "2021"
publish = false

[dependencies]
serenity = "0.12"
chrono = "0.4"
rand = "0.9"
serde = { version = "1", features = ["derive"] }
serde_json = "1"
tokio = { version = "1", features = ["full"] }
tracing = "0.1"
tracing-subscriber = { version = "0.3", features = ["json"] }
reqwest = { version = "0.12", features = ["json"] }
anyhow = "1"
