[package]
name = "faust_sine"
version = "0.1.0"
edition = "2021"
publish = false

[dependencies]
jack = "*"
libm = "*"
