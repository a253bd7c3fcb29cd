[package]
name = "slipstream"
version = "0.2.1"
edition = "2021"
publish = false

[dependencies]
num-traits = { version = "0.2", default-features = false, features = ["std"] }
