[package]
name = "nes"
version = "0.1.0"
edition = "2021"
publish = false

[dependencies]
log = "0.4"
env_logger = "0.11"
sdl2 = "0.37"
