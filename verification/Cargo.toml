[package]
name = "iggy_py"
version = "0.1.0"
edition = "2021"
publish = false

[dependencies]
iggy = "0.6"
pyo3 = "0.22"
pyo3-async-runtimes = { version = "0.22", features = ["tokio-runtime"] }
pyo3-stub-gen = "*"
