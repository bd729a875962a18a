[package]
name = "core_video"
version = "0.1.0"
edition = "2021"
publish = false

[dependencies]
core-foundation = "*"
libc = "*"
metal = "*"
