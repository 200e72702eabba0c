[package]
name = "campaign_feed"
version = "0.1.0"
edition = "2021"
publish = false

[dependencies]
serde_json = "*"
dotenvy = "*"
reqwest = { version = "*", default-features = false, features = ["blocking"] }
