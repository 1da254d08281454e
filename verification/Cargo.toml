[package]
name = "same_length_and_capacity"
version = "0.1.0"
edition = "2021"
publish = false

[dependencies]
clippy_utils = "*"
