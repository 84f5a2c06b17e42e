[package]
name = "socat_rs"
version = "0.1.0"
edition = "2021"
publish = false

[dependencies]
clap = "*"
colored = "*"
log = "*"
