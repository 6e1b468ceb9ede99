[package]
name = "kdeconnect"
version = "0.1.0"
edition = "2021"
publish = false

[dependencies]
serde = { version = "=1.0.229", features = ["derive"] }
serde_json = "=1.0.154"
tokio = { version = "=1.54.1", features = ["rt-multi-thread", "macros", "sync", "process", "io-util"] }
anyhow = "=1.0.104"
tracing = "=0.1.44"
ashpd = { version = "=0.13.13", features = ["remote_desktop", "screencast"] }
ron = "=0.12.3"
dirs = "=7.0.0"
