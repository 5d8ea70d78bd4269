[package]
name = "pyo3_rustpython"
version = "0.1.0"
edition = "2021"
publish = false

[dependencies]
rustpython-vm = { version = "=0.5.0", default-features = false, features = ["compiler"] }
syn = { version = "=2.0.119", features = ["full", "extra-traits"] }
quote = "=1.0.47"
proc-macro2 = "=1.0.107"
paste = "=1.0.15"
