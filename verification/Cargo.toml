[package]
name = "pop_core"
version = "0.1.0"
edition = "2021"
publish = false

[dependencies]
libc = "0.2"
log = "0.4"
env_logger = "0.11"
