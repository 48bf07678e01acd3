[package]
name = "amm"
version = "0.1.0"
edition = "2021"
publish = false

[dependencies]
num-integer = "0.1"
anchor-lang = { version = "0.31.1", features = ["init-if-needed"] }
anchor-spl = "0.31.1"
