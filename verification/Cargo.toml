[package]
name = "fortuna_miner"
version = "0.1.0"
edition = "2021"
publish = false

[dependencies]
anyhow = "1"
async-channel = "2"
async-std = "1"
clap = { version = "4", features = ["cargo"] }
env_logger = "0.11"
hex = "0.4"
log = "0.4"
num_cpus = "1"
rand = "0.8"
serde = { version = "1", features = ["derive"] }
serde_json = "1"
sha2 = "0.10"
tokio = { version = "1", features = ["rt-multi-thread", "macros", "sync", "time"] }
