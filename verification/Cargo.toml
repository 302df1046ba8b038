[package]
name = "pathtracer"
version = "0.1.0"
edition = "2021"
publish = false

[dependencies]
cascade = "*"
cgmath = "*"
lazy_static = "*"
wasm-bindgen = "*"
