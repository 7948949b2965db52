[package]
name = "proxy_autologin"
version = "0.1.0"
edition = "2021"
publish = false

[dependencies]
reqwest = { version = "0.11", features = ["blocking"] }
chrono = "0.4"
cron = "0.12"
env_logger = "0.9"
log = "0.4"
structopt = "0.3"
