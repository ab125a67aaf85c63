[package]
name = "urlguard"
version = "0.1.0"
edition = "2021"
publish = false

[dependencies]
sled = "=0.34.7"
url = "=2.5.8"
linkify = "=0.8.1"
serde_json = "=1.0.154"
chrono = "=0.4.45"
twilight-command-parser = "=0.8.1"
twilight-model = "=0.8.5"
twilight-http = "=0.8.5"
twilight-gateway = "=0.8.5"
twilight-cache-inmemory = { version = "=0.8.6", features = ["permission-calculator"] }
twilight-interactions = "=0.8.1"
reqwest = { version = "=0.11.27", default-features = false, features = ["rustls-tls"] }
tokio = { version = "=1.54.1", features = ["full"] }
futures = "=0.3.34"
anyhow = "=1.0.104"
async-trait = "=0.1.92"
