[package]
name = "sessync"
version = "0.1.0"
edition = "2021"
publish = false

[dependencies]
anyhow = "1"
chrono = { version = "=0.4.39", features = ["serde"] }
clap = { version = "4", features = ["derive"] }
env_logger = "0.11"
google-cloud-bigquery = "=0.15.0"
hostname = "=0.4.2"
log = "0.4"
serde = { version = "1", features = ["derive"] }
serde_json = "1"
shellexpand = "=3.1.2"
tokio = { version = "1", features = ["rt-multi-thread", "macros", "time"] }
uuid = { version = "=1.29.0", features = ["v4"] }
walkdir = "2"
