[package]
name = "watchdog"
version = "0.1.0"
edition = "2021"
publish = false

[dependencies]
clap = { version = "3", features = ["derive"] }
ctrlc = "3"
env_logger = "0.9"
log = "0.4"
