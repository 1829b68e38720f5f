[package]
name = "swiftsc_runtime"
version = "0.1.0"
edition = "2021"
publish = false

[dependencies]
anyhow = "1"
wasmi = "0.31"

[dev-dependencies]
wat = "1"
