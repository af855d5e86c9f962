[package]
name = "miki_backend"
version = "0.1.0"
edition = "2021"
publish = false

[dependencies]
serde = { version = "=1.0.229", features = ["derive"] }
serde_json = "=1.0.154"
serde_yaml = "=0.9.34"
time = "=0.3.55"
actix-web = "=4.18.1"
awc = "=3.11.0"
log = "=0.4.35"
log4rs = "=1.4.0"
sqlx = { version = "=0.8.6", default-features = false, features = ["mysql", "runtime-tokio"] }
wechat-pay-rust-sdk = { version = "=0.2.21", features = ["async"] }
