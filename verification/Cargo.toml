[package]
name = "lildb"
version = "0.1.0"
edition = "2021"
publish = false

[dependencies]
anyhow = "*"
chrono = "*"
local-ip-address = "*"
reqwest = { version = "*", default-features = false }
serde = { version = "*", features = ["derive"] }
tokio = { version = "*", features = ["full"] }
tokio-stream = "*"
toml = "*"
tracing = "*"
tracing-subscriber = "*"
waitgroup = "*"
