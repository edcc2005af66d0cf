[package]
name = "moolah_core"
version = "0.1.0"
edition = "2021"
publish = false

[dependencies]
rust_decimal = { version = "=1.43.0", default-features = false, features = ["std", "maths"] }
