[package]
name = "nal_pola"
version = "0.1.0"
edition = "2021"
publish = false

[dependencies]
nalgebra = "*"
num-traits = "*"
polars = { version = "*", default-features = false }
