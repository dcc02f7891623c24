[package]
name = "pov_wheel"
version = "0.1.0"
edition = "2021"
publish = false

[dependencies]
image = "=0.25.10"
show-image = { version = "=0.14.1", features = ["image"] }
