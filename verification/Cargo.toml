[package]
name = "stellar_ops"
version = "0.1.0"
edition = "2021"
publish = false

[dependencies]
stellar-strkey = "*"
num-traits = "*"
