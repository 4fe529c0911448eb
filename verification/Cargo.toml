[package]
name = "drone_sim"
version = "0.1.0"
edition = "2021"
publish = false

[dependencies]
dae-parser = "*"
ndarray = "0.15"
