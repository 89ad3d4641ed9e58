[package]
name = "quackmire"
version = "0.1.0"
edition = "2021"
publish = false

[dependencies]
unicode-width = "=0.2.0"
ratatui = { version = "=0.29.0", features = ["unstable-widget-ref"] }
crossterm = "=0.28.1"
tui-textarea = "=0.7.0"
ratatui-explorer = "=0.1.4"
tokio = { version = "=1.54.1", features = ["full"] }
duckdb = "=1.20000.0"
chrono = "=0.4.45"
