[package]
name = "rssify"
version = "0.1.0"
edition = "2021"
publish = false

[dependencies]
chrono = "0.4"
clap = { version = "4", features = ["derive"] }
json = "0.12"
regex = "1"
reqwest = "0.12"
rss = "2"
scraper = "*"
tokio = { version = "1", features = ["rt-multi-thread", "macros", "sync"] }
tokio-postgres = "0.7"
