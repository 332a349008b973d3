[package]
name = "vrpn"
version = "0.1.0"
edition = "2021"
publish = false

[dependencies]
bytes = "*"
cgmath = "*"
futures = "*"
tokio = { version = "*", features = ["time"] }
async-std = "*"
