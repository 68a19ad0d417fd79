[package]
name = "podfetch"
version = "0.1.0"
edition = "2021"
publish = false

[dependencies]
anyhow = "1"
reqwest = { version = "*", default-features = false }
rss = "*"
tokio = { version = "*", features = ["macros", "rt-multi-thread"] }
