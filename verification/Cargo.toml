[package]
name = "protoxy"
version = "0.1.0"
edition = "2021"
publish = false

[dependencies]
heck = "0.5"
miette = { version = "7", features = ["fancy"] }
protobuf = "3"
protox = "0.7"
pyo3 = { version = "0.22", features = ["extension-module"] }
thiserror = "1"
