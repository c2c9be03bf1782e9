[package]
name = "feed_to_epub"
version = "0.1.0"
edition = "2021"
publish = false

[dependencies]
anyhow = "=1.0.104"
clap = { version = "=4.6.7", features = ["derive"] }
epub-builder = "=0.8.3"
feed-rs = "=3.0.0"
jiff = "=0.2.38"
rusqlite = { version = "=0.41.0", features = ["bundled", "fallible_uint"] }
serde = { version = "=1.0.229", features = ["derive"] }
thiserror = "=2.0.21"
toml = "=1.1.8"
ureq = "=2.12.1"
