[package]
name = "debug_lines"
version = "0.1.0"
edition = "2021"
publish = false

[dependencies]
failure = "0.1"
glsl-layout = "0.3"
rendy = { version = "0.3", default-features = false, features = ["base"] }
