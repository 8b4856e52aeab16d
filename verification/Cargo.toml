[package]
name = "lightroom"
version = "0.1.0"
edition = "2021"
publish = false

[dependencies]
shrev = "=1.1.3"
renderdoc = "*"
