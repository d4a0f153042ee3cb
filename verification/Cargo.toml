[package]
name = "blogr"
version = "0.1.0"
edition = "2021"
publish = false

[dependencies]
pulldown-cmark = { version = "=0.9.6", default-features = false }
chrono = "=0.4.45"
url = "=2.5.8"
uuid = { version = "=1.29.1", features = ["v4"] }
toml = "=0.8.23"
anyhow = "=1.0.104"
clap = { version = "=4.6.7", features = ["derive"] }
serde = { version = "=1.0.229", features = ["derive"] }
serde_json = "=1.0.154"
serde_yaml = "=0.9.34"
walkdir = "=2.5.0"
crossterm = "=0.27.0"
ratatui = "=0.26.3"
rusqlite = { version = "=0.31.0", features = ["bundled"] }
dotenvy = "=0.15.7"
syntect = { version = "5", default-features = false, features = ["default-fancy"] }
