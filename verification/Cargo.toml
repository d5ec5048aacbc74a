[package]
name = "agent-of-empires"
version = "0.1.0"
edition = "2021"
publish = false

[dependencies]
ansi-to-tui = "7"
anyhow = "1"
axum = "0.8"
base64 = "0.22"
chrono = { version = "0.4", features = ["serde"] }
crossterm = { version = "0.28", features = ["event-stream"] }
dirs = "6"
fs2 = "0.4"
futures-util = "0.3"
getrandom = "0.3"
p256 = { version = "0.13", features = ["ecdsa", "pem", "pkcs8"] }
rand = "0.9"
ratatui = "0.29"
reqwest = { version = "0.12", default-features = false }
serde = { version = "1", features = ["derive"] }
serde_json = "1"
sha2 = "0.10"
tokio = { version = "1", features = ["fs", "macros", "rt-multi-thread", "signal", "sync", "time"] }
tracing = "0.1"

[dev-dependencies]
tempfile = "3"
