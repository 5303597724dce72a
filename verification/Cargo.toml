[package]
name = "populatrs"
version = "0.1.0"
edition = "2021"
publish = false

[dependencies]
anyhow = "1"
async-trait = "0.1"
base64 = "0.22"
chrono = { version = "0.4", features = ["serde"] }
clap = "4"
env_logger = "*"
feed-rs = "2"
log = "0.4"
md5 = "0.7"
minijinja = "2"
regex = "1"
reqwest = { version = "0.12", features = ["json"] }
rss = "2"
serde = { version = "1", features = ["derive"] }
serde_json = "1"
tokio = { version = "1", features = ["full"] }
tokio-cron-scheduler = "*"
url = "2"
uuid = { version = "1", features = ["v4"] }
