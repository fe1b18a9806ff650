[package]
name = "reddit_auth"
version = "0.1.0"
edition = "2021"
publish = false

[dependencies]
base64 = "0.13"
reqwest = { version = "*", default-features = false }
tokio = { version = "1", features = ["sync"] }
async-trait = "0.1"
serde_json = "1"
