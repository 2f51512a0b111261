[package]
name = "brokerapi"
version = "0.1.0"
edition = "2021"
publish = false

[dependencies]
actix-web = "3"
serde = { version = "1", features = ["derive"] }
serde_json = "1"
log = "0.4"
env_logger = "0.9"
