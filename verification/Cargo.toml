[package]
name = "auto_key"
version = "0.1.0"
edition = "2021"
publish = false

[dependencies]
enigo = "0.1"
rdev = "0.5"
