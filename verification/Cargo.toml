[package]
name = "haru"
version = "0.1.0"
edition = "2021"
publish = false

[dependencies]
libharu-sys = "*"
anyhow = "*"
