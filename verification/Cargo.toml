[package]
name = "rustsheet"
version = "0.1.0"
edition = "2021"
publish = false

[dependencies]
num-traits = "0.2"
svg = "0.13"
thiserror = "1"
tinyvec = "1"
