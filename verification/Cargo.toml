[package]
name = "aarch64_boot"
version = "0.1.0"
edition = "2021"
publish = false

[dependencies]
bitfield = "0.13"
