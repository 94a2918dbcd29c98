[package]
name = "sps_data"
version = "0.1.0"
edition = "2021"

[dependencies]
rustc_apfloat = "*"
polars = { version = "*", default-features = false }
