[package]
name = "graphics"
version = "0.1.0"
edition = "2021"
publish = false

[dependencies]
ash = "0.38"
ash-window = "0.13"
winit = "0.30"
memoffset = "0.9"
thiserror = "2"
