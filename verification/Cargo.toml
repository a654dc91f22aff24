[package]
name = "storageshower"
version = "0.1.0"
edition = "2021"
publish = false

[dependencies]
crossterm = "=0.28.1"
ratatui = "=0.29.0"
sysinfo = "=0.32.1"
libc = "=0.2.191"
dirs = "=5.0.1"
serde = { version = "=1.0.229", features = ["derive"] }
toml = "=0.8.23"
clap = { version = "4", features = ["derive"] }
