[package]
name = "playbot"
version = "0.1.0"
edition = "2021"
publish = false

[dependencies]
serde_json = "1"
rusqlite = { version = "*", features = ["bundled"] }
ed25519-dalek = "2"
lambda_http = "*"
tokio = { version = "1", features = ["macros", "rt-multi-thread"] }
ureq = { version = "2", features = ["json"] }
anyhow = "1"
tracing = "*"
tracing-subscriber = "*"
