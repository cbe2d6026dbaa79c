[package]
name = "blt_backend"
version = "0.1.0"
edition = "2021"
publish = false

[dependencies]
bear-lib-terminal = "*"
chan = "0.1"
