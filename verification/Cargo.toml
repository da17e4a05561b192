[package]
name = "rskan"
version = "0.1.0"
edition = "2021"
publish = false

[dependencies]
burn = { version = "0.14.0", default-features = false, features = ["std", "ndarray", "autodiff"] }
ndarray = "0.16"
rand = "0.8"
pyo3 = "0.22"
numpy = "0.22"
