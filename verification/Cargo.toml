[package]
name = "path-traits"
version = "0.1.0"
edition = "2021"
publish = false

[dependencies]
num-traits = { version = "0.2", default-features = false, features = ["std"] }
