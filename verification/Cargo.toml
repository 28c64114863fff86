[package]
name = "docln_fetch"
version = "0.1.0"
edition = "2021"
publish = false

[dependencies]
anyhow = "1"
async_zip = { version = "*", features = ["tokio", "tokio-fs", "deflate"] }
bytes = "1"
chrono = "0.4"
config = { version = "*", default-features = false, features = ["toml"] }
http = "1"
linkify = "=0.11.0"
rand = "*"
regex = "=1.13.1"
reqwest = { version = "0.13", default-features = false, features = ["cookies"] }
scraper = "=0.29.0"
serde = { version = "1", features = ["derive"] }
sha2 = "=0.10.9"
tokio = { version = "1", features = ["full"] }
tower = { version = "0.5", features = ["limit", "buffer", "util"] }
tower-http-client = "*"
tower-reqwest = "*"
tracing = "0.1"
tracing-subscriber = { version = "0.3", features = ["env-filter"] }
ua_generator = "*"
url = "=2.5.8"
