[package]
name = "woody"
version = "0.1.0"
edition = "2021"
publish = false

[dependencies]
chrono = "*"
lazy_static = "*"
