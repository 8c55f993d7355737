[package]
name = "pillow_jxl"
version = "0.1.0"
edition = "2021"
publish = false

[dependencies]
half = "*"
jpegxl-rs = { version = "*", default-features = false }
pyo3 = "*"
