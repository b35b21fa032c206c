[package]
name = "tts_fetch"
version = "0.1.0"
edition = "2021"
publish = false

[dependencies]
pyo3 = { version = "0.20", features = ["extension-module", "abi3-py38"] }
reqwest = { version = "0.11", default-features = false, features = ["blocking"] }
