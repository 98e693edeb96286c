[package]
name = "gameboy"
version = "0.1.0"
edition = "2021"
publish = false

[dependencies]
clap = { version = "=4.6.7", features = ["derive"] }
crossterm = "=0.29.0"
env_logger = "=0.11.11"
log = "=0.4.34"
minifb = "=0.29.0"
num-format = "=0.4.4"
ratatui = "=0.30.2"

[dev-dependencies]
serde_json = "1"
