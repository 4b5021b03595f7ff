[package]
name = "bms_table"
version = "0.1.0"
edition = "2021"
publish = false

[dependencies]
serde_json = "=1.0.151"
scraper = "=0.27.0"
url = "=2.5.8"
reqwest = { version = "=0.12.28", features = ["cookies"] }
tokio = { version = "=1.53.2", features = ["rt-multi-thread", "macros"] }
anyhow = "=1.0.104"
