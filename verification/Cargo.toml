[package]
name = "solaris"
version = "0.1.0"
edition = "2021"
publish = false

[dependencies]
anyhow = "1"
ash = "0.38"
ash-window = "0.13"
thiserror = "1"
winit = "0.30"
