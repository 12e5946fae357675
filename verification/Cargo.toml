[package]
name = "amp"
version = "0.1.0"
edition = "2021"
publish = false

[dependencies]
scribe = "=0.10.0"
syntect = { version = "=5.3.0", default-features = false, features = ["default-fancy"] }
