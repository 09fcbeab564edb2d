[package]
name = "posts_integrity"
version = "0.1.0"
edition = "2021"
publish = false

[dependencies]
hdi = "0.8"
