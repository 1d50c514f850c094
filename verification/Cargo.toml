[package]
name = "drone_cortexm"
version = "0.1.0"
edition = "2021"
publish = false

[dependencies]
futures = { version = "=0.3.34", default-features = false, features = ["std"] }
