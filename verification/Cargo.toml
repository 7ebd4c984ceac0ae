[package]
name = "boosty_downloader"
version = "0.1.0"
edition = "2021"
publish = false

[dependencies]
anyhow = "=1.0.104"
boosty_api = "=0.32.0"
chrono = "=0.4.45"
comrak = { version = "=0.57.0", default-features = false }
futures-util = "=0.3.34"
indicatif = "=0.18.6"
reqwest = { version = "=0.12.28", features = ["stream"] }
serde = { version = "=1.0.229", features = ["derive"] }
serde_json = "=1.0.154"
sha2 = "=0.10.9"
tokio = { version = "=1.54.1", features = ["full"] }
url = "=2.5.8"
