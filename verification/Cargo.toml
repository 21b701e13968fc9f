[package]
name = "neovi_mic_rs"
version = "0.1.0"
edition = "2021"
publish = false

[dependencies]
rusb = "0.9"
pyo3 = "0.20"
