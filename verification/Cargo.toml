[package]
name = "router_reboot"
version = "0.1.0"
edition = "2021"
publish = false

[dependencies]
anyhow = "=1.0.104"
chrono = "=0.4.45"
clap = { version = "=4.6.7", features = ["derive", "env"] }
cron = "=0.17.0"
env_logger = "=0.11.11"
log = "=0.4.34"
reqwest = { version = "=0.13.5", default-features = false, features = ["blocking", "cookies", "form"] }
url = "=2.5.8"

[dev-dependencies]
serde_json = "=1.0.151"
