[package]
name = "sandos"
version = "0.1.0"
edition = "2021"
publish = false

[dependencies]
heapless = "0.8"
wasmi = "0.31"
wat = "1"
