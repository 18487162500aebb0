[package]
name = "cdumay_error_toml"
version = "0.1.0"
edition = "2021"
publish = false

[dependencies]
cdumay_error = "=1.0.3"
serde-value = "=0.7.0"
toml = "=0.8.23"
