[package]
name = "blight"
version = "0.7.1"
edition = "2021"
publish = false

[dependencies]
colored = "2"
