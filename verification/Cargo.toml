[package]
name = "rokid_air"
version = "0.1.0"
edition = "2021"
publish = false

[dependencies]
rusb = "0.9"
nalgebra = "*"
