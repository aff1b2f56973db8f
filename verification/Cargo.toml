[package]
name = "nerdterm"
version = "0.1.0"
edition = "2021"
publish = false

[dependencies]
anyhow = "1"
chrono = "=0.4.45"
crossterm = { version = "=0.28.1", features = ["event-stream", "bracketed-paste"] }
dirs = "=7.0.0"
futures = "0.3"
ratatui = "=0.30.2"
russh = { version = "0.65", default-features = false, features = ["ring", "rsa"] }
serde = { version = "1", features = ["derive"] }
tokio = { version = "1", features = ["full"] }
tokio-util = "=0.7.20"
toml = "=0.8.23"
tui-term = "=0.3.4"
vt100 = "=0.16.2"
zeroize = "1"
