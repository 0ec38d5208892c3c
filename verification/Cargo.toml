[package]
name = "cursor-api"
version = "0.1.0"
edition = "2021"
publish = false

[dependencies]
uuid = { version = "1", features = ["v4"] }
serde = { version = "1", features = ["derive"] }
toml = "0.8"
dirs = "5"
anyhow = "1"
tracing = "0.1"
crossterm = "0.28"
ratatui = "0.29"
