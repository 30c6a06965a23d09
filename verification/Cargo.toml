[package]
name = "mcdp_cli"
version = "0.1.0"
edition = "2021"
publish = false

[dependencies]
self_update = { version = "=1.3.0", default-features = false, features = ["ureq", "rustls", "github"] }
anyhow = "=1.0.104"
log = "=0.4.34"
env_logger = "=0.11.11"
