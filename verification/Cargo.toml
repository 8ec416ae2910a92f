[package]
name = "pythonize"
version = "0.1.0"
edition = "2021"
publish = false

[dependencies]
serde = "*"
pyo3 = "*"

[dev-dependencies]
serde_json = "*"
