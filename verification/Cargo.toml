[package]
name = "hurl_runner"
version = "0.1.0"
edition = "2021"
publish = false

[dependencies]
hurl_core = "=1.7.0"
