[package]
name = "crawlkit"
version = "0.1.0"
edition = "2021"
publish = false

[dependencies]
encoding_rs = "*"
mime = "*"
scraper = "*"
url = "*"
log = "*"
env_logger = "*"
reqwest = { version = "*", default-features = false }
tokio = { version = "*", features = ["rt-multi-thread", "macros", "time", "sync"] }
