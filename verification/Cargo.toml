[package]
name = "codex"
version = "0.1.0"
edition = "2021"
publish = false

[dependencies]
anyhow = "1"
color-eyre = "0.6.3"
crossterm = "0.28.1"
dotenvy = "0.15.7"
ratatui = { version = "0.29.0", default-features = false, features = ["crossterm"] }
tempfile = "3"
tokio = { version = "1", features = ["macros", "rt-multi-thread", "sync", "time"] }
tokio-stream = "0.1.17"
tracing = "0.1.41"
uuid = "1"
