[package]
name = "monitor_switch"
version = "0.1.0"
edition = "2021"
publish = false

[dependencies]
clap = "=4.6.7"
ddc-hi = { version = "=0.4.1", default-features = false }
env_logger = "=0.11.11"
log = "=0.4.34"
