[package]
name = "noise"
version = "0.1.0"
edition = "2021"
publish = false

[dependencies]
num-traits = "0.2"
rand = { version = "0.8", default-features = false }
rand_xorshift = "0.3"
