[package]
name = "gterm"
version = "0.1.0"
edition = "2021"
publish = false

[dependencies]
anyhow = "1"
arboard = { version = "3", default-features = false }
crossterm = "0.28"
dirs = "5"
env_logger = "0.11"
portable-pty = "0.8"
ratatui = "0.29"
ropey = "1.6"
serde = { version = "1", features = ["derive"] }
syntect = { version = "5", default-features = false, features = ["default-fancy"] }
toml = "0.8"
vt100 = "0.15"
