[package]
name = "casper_swap"
version = "0.1.0"
edition = "2021"
publish = false

[dependencies]
odra = "*"
casper-contract = { version = "*", default-features = false }
