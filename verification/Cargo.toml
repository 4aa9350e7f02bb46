[package]
name = "minrx"
version = "0.1.0"
edition = "2021"
publish = false

[dependencies]
minrx-sys = "*"
