[package]
name = "kaiga"
version = "0.1.0"
edition = "2021"
publish = false

[dependencies]
cgmath = "*"
glium = { version = "*", default-features = false }
