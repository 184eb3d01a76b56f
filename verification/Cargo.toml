[package]
name = "desktop_notify"
version = "0.1.0"
edition = "2021"
publish = false

[dependencies]
rand = "=0.8.8"
serde = { version = "=1.0.229", features = ["derive"] }
serde_json = "=1.0.154"
actix-web = { version = "=4.18.1", default-features = false, features = ["macros"] }
anyhow = "=1.0.104"
env_logger = "=0.11.11"
log = "=0.4.35"
url = "=2.5.8"
