[package]
name = "html_intake"
version = "0.1.0"
edition = "2021"
publish = false

[dependencies]
uuid = { version = "1", features = ["v4"] }
notify = "4.0"
headless_chrome = "0.9"
failure = "0.1"
log = "0.4"
env_logger = "0.9"
lazy_static = "1"
