[package]
name = "qbittorrent-mover"
version = "0.1.0"
edition = "2021"
publish = false

[dependencies]
anyhow = "1"
fs_extra = "1"
futures = "0.3"
log = "0.4"
log4rs = "1"
reqwest = { version = "0.11", features = ["json"] }
serde = { version = "1", features = ["derive"] }
serde_yaml = "0.9"
tokio = { version = "1", features = ["full"] }
