[package]
name = "service_adsb_rs"
version = "0.1.0"
edition = "2021"
publish = false

[dependencies]
anyhow = "=1.0.104"
base64 = "=0.22.1"
chrono = { version = "=0.4.45", features = ["serde"] }
clap = { version = "=4.6.7", features = ["derive", "cargo"] }
env_logger = "=0.11.11"
flate2 = "=1.1.10"
log = "=0.4.34"
reqwest = "=0.12.28"
serde = { version = "=1.0.229", features = ["derive"] }
sysinfo = "=0.39.6"
tokio = { version = "=1.54.1", features = ["full"] }
toml = "=0.8.23"
url = "=2.5.8"
warp = "=0.3.7"
