[package]
name = "side_offsets"
version = "0.1.0"
edition = "2021"
publish = false

[dependencies]
length = "*"
num = "0.4"
