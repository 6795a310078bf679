[package]
name = "simple_tracker"
version = "0.1.0"
edition = "2021"
publish = false

[dependencies]
anyhow = "1"
async-std = { version = "1", features = ["attributes"] }
async-trait = "0.1"
bounded-vec-deque = "0.1"
chrono = { version = "0.4", features = ["serde"] }
clap = "2"
csv = "1"
env_logger = "0.8"
futures = "0.3"
log = "0.4"
serde = { version = "1", features = ["derive"] }
thiserror = "1"
warp = "0.3"
xactor = "0.7"
yahoo_finance_api = "1"
