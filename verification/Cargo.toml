[package]
name = "bcf_reader"
version = "0.1.0"
edition = "2021"
publish = false

[dependencies]
pyo3 = { version = "0.23", default-features = false, features = ["macros"] }
rust-htslib = { version = "*", default-features = false }
