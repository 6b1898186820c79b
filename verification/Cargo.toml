[package]
name = "whiteout"
version = "0.1.0"
edition = "2021"
publish = false

[dependencies]
anyhow = "1"
single-instance = "0.3"
softbuffer = "0.4"
winit = "0.30"
