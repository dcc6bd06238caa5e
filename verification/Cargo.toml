[package]
name = "slag"
version = "0.1.0"
edition = "2021"
publish = false

[dependencies]
docopt = "*"
syntex_syntax = "*"
