[package]
name = "wlctl"
version = "0.1.0"
edition = "2021"
publish = false

[dependencies]
anyhow = "=1.0.104"
async-channel = "=2.5.0"
chrono = { version = "=0.4.45", default-features = false, features = ["std"] }
clap = { version = "=4.6.7", features = ["derive", "cargo"] }
crossterm = "=0.29.0"
qrcode = { version = "=0.14.1", default-features = false }
ratatui = "=0.30.2"
tokio = { version = "=1.54.1", features = ["full"] }
tui-input = "=0.15.5"
tui-qrcode = "=0.2.7"
zbus = { version = "=5.19.0", default-features = false, features = ["tokio"] }
