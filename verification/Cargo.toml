[package]
name = "codex-nano-manager"
version = "0.1.0"
edition = "2021"
publish = false

[dependencies]
clap = { version = "4", features = ["derive"] }
crossterm = "*"
dialoguer = "*"
dirs = "*"
fastrand = "2"
ratatui = "*"
serde = { version = "1", features = ["derive"] }
serde_json = "1"
tempfile = "3"
thiserror = "*"
time = { version = "0.3", features = ["formatting"] }
toml = "*"
