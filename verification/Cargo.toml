[package]
name = "rgy"
version = "0.1.0"
edition = "2021"
publish = false

[dependencies]
arrayvec = "*"
anyhow = "*"
structopt = "*"
env_logger = "*"
log = "*"
