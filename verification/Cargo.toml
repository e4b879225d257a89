[package]
name = "ballista_tui"
version = "0.1.0"
edition = "2021"
publish = false

[dependencies]
ratatui = "=0.30.2"
crossterm = { version = "=0.29.0", features = ["event-stream"] }
tokio = { version = "=1.54.1", features = ["rt", "sync", "time", "macros"] }
tracing = "=0.1.44"
futures = "=0.3.34"
ratzilla = "=0.1.0"
