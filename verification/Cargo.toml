[package]
name = "render_core"
version = "0.1.0"
edition = "2021"
publish = false

[dependencies]
gl33 = "=0.2.1"
glutin = "=0.29.1"
rust-embed = "*"
ultraviolet = "=0.9.2"
