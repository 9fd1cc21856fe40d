[package]
name = "repo_config"
version = "0.1.0"
edition = "2021"
publish = false

[dependencies]
rust-ini = "=0.13.0"
url = "=2.5.8"

[dev-dependencies]
tempfile = "=3.27.0"
