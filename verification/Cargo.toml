[package]
name = "linetest"
version = "0.1.0"
edition = "2021"
publish = false

[dependencies]
anyhow = "1"
chrono = "0.4"
crossterm = "0.26"
dirs = "5"
env_logger = "0.10"
gumdrop = "0.8"
log = "0.4"
pinger = "*"
rayon = "1"
serde = { version = "1", features = ["derive"] }
serde_json = "1"
ureq = "2"
