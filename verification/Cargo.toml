[package]
name = "skyrogue"
version = "0.1.0"
edition = "2021"
publish = false

[dependencies]
clap = "*"
log = "*"
sdl2 = "*"
simple_logger = "*"
