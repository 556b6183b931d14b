[package]
name = "exhibition_lp_e2e"
version = "0.1.0"
edition = "2021"
publish = false

[dependencies]
headless_chrome = "*"
log = "*"
env_logger = "*"
