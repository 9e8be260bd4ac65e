[package]
name = "framepace"
version = "0.1.0"
edition = "2021"
publish = false

[dependencies]
memfile = "*"
wayland-client = "*"
wayland-protocols = { version = "*", features = ["client", "staging", "unstable"] }
