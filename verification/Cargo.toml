[package]
name = "gallery_cache"
version = "0.1.0"
edition = "2021"
publish = false

[dependencies]
anyhow = "*"
redb = "*"
reqwest = { version = "*", default-features = false, features = ["gzip", "json"] }
serde = { version = "*", features = ["derive"] }
serde_json = "*"
