[package]
name = "pele"
version = "0.1.0"
edition = "2021"
publish = false

[dependencies]
rss = "*"
chrono = "*"
tokio = { version = "*", features = ["rt-multi-thread", "macros", "sync", "time"] }
dashmap = "*"
figment = { version = "*", features = ["toml", "env"] }
serde = { version = "*", features = ["derive"] }
toml = "*"
reqwest = { version = "*", default-features = false }
axum = "*"
anyhow = "*"
