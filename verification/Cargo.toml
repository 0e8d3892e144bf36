[package]
name = "holy_maiden_bot"
version = "0.1.0"
edition = "2021"
publish = false

[dependencies]
rand = "=0.8.8"
serde = { version = "=1.0.229", features = ["derive"] }
serde_json = "=1.0.154"
toml = "=0.8.23"
tokio = { version = "=1.54.1", features = ["full"] }
futures-util = "=0.3.34"
async-trait = "=0.1.92"
log = "=0.4.34"
env_logger = "=0.11.11"
chrono = "=0.4.45"
dotenvy = "=0.15.7"
bytes = "=1.12.1"
reqwest = "=0.12.28"
grammers-client = { version = "=0.7.0", features = ["html"] }
rust-anilist = "=0.1.5"
rbatis = "=4.9.8"
rbs = "=4.8.4"
rbdc-sqlite = "=4.9.5"
