[package]
name = "jgilrs"
version = "0.1.0"
edition = "2021"
publish = false

[dependencies]
gilrs = "=0.7.4"
bindgen = "*"
rust_swig = "*"
env_logger = "*"
