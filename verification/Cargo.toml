[package]
name = "kiwigb"
version = "0.1.0"
edition = "2021"
publish = false

[dependencies]
sdl2 = "*"
log = "*"
pretty_env_logger = "*"
