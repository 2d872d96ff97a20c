[package]
name = "rs_flash"
version = "0.1.0"
edition = "2021"
publish = false

[dependencies]
clap = { version = "=4.6.7", features = ["derive"] }
color-eyre = "=0.6.5"
log = "=0.4.34"
pretty_env_logger = "=0.5.0"
object = { version = "=0.40.0", features = ["write"] }
probe-rs = "=0.32.0"
