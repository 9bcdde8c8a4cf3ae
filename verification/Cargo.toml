[package]
name = "feed_relay"
version = "0.1.0"
edition = "2021"
publish = false

[dependencies]
rss = "2"
poise = "0.5"
tokio = { version = "1", features = ["macros", "rt-multi-thread"] }
tokio-cron-scheduler = "0.9"
reqwest = { version = "0.11", default-features = false }
env_logger = "0.10"
