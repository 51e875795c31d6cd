[package]
name = "spear"
version = "0.1.0"
edition = "2021"
publish = false

[dependencies]
object = "*"
log = "*"
env_logger = "*"
