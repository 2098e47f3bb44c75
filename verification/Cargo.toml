[package]
name = "timr"
version = "0.1.0"
edition = "2021"
publish = false

[dependencies]
crossterm = { version = "*", features = ["event-stream"] }
ratatui = "*"
tokio = { version = "*", features = ["rt", "macros", "sync", "time"] }
tokio-stream = "*"
futures = "*"
notify-rust = "*"
color-eyre = "*"
tracing = "*"
