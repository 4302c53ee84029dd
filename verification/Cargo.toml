[package]
name = "codex_lite"
version = "0.1.0"
edition = "2021"
publish = false

[dependencies]
async-channel = "2"
crossterm = "0.28"
ratatui = { version = "0.29", features = ["unstable-widget-ref"] }
serde = { version = "1", features = ["derive"] }
serde_bytes = "0.11"
serde_json = "1"
textwrap = "0.16"
tokio = { version = "1", features = ["io-util", "macros", "process", "rt-multi-thread", "sync", "time"] }
tracing = "0.1"
unicode-segmentation = "1"
unicode-width = "0.1"

[dev-dependencies]
rand = "0.8"
