[package]
name = "herbolution"
version = "0.1.0"
edition = "2021"
publish = false

[dependencies]
smallvec = "1"
image = "0.25"
winit = "0.30"
