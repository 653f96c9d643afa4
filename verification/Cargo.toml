[package]
name = "trigger"
version = "0.1.0"
edition = "2021"
publish = false

[dependencies]
clap = "=2.34.0"
hyper = "=0.12.36"
log = "=0.4.34"
pretty_env_logger = "=0.4.0"
rifling = { version = "=0.4.0", default-features = false, features = ["hyper-support", "logging", "crypto-use-rustcrypto", "content-type-urlencoded"] }
run_script = "=0.11.2"
yaml-rust = "=0.4.5"
