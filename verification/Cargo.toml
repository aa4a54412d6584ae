[package]
name = "fas"
version = "0.1.0"
edition = "2021"
publish = false

[dependencies]
regex = "1"
scraper = "*"
serde_json = "1"
reqwest = { version = "*", default-features = false }
