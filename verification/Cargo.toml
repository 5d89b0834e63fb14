[package]
name = "rust_coreaudio"
version = "0.1.0"
edition = "2021"
publish = false

[dependencies]
coreaudio-sys = "*"
core-foundation-sys = "*"
lazy_static = "*"
