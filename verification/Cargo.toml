[package]
name = "kkexpr"
version = "0.1.0"
edition = "2021"
publish = false

[dependencies]
polars = { version = "=0.55.2", default-features = false, features = ["lazy", "rolling_window", "rank", "temporal", "fmt"] }
pyo3 = { version = "=0.29.3", features = ["extension-module"] }
