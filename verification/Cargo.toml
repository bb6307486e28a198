[package]
name = "guidra"
version = "0.1.0"
edition = "2021"
publish = false

[dependencies]
capstone = "*"
keystone = "*"
lazy_static = "*"

[dev-dependencies]
hex = "*"
