[package]
name = "jwt_ui"
version = "0.1.0"
edition = "2021"
publish = false

[dependencies]
anyhow = "1"
backtrace = "0.3"
base64 = "0.22"
clap = { version = "4", features = ["derive"] }
crossterm = "0.27"
hmac = "0.12"
human-panic = "1"
openssl-probe = "0.1"
ratatui = "0.26"
serde_json = "1"
sha2 = "0.10"
tokio = { version = "1", features = ["macros", "rt-multi-thread", "sync"] }
