[package]
name = "counter"
version = "0.1.0"
edition = "2021"
publish = false

[dependencies]
cosmwasm-std = { version = "=1.5.11", features = ["ibc3"] }
cw2 = "=1.1.2"
