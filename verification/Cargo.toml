[package]
name = "rac_core"
version = "0.1.0"
edition = "2021"
publish = false

[dependencies]
rustc_apfloat = "*"
rayon = "1"
pyo3 = "0.22"
