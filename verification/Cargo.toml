[package]
name = "kand"
version = "0.1.0"
edition = "2021"
publish = false

[dependencies]
num_enum = "0.7"
numpy = "0.23"
pyo3 = "0.23"
