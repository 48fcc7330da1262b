[package]
name = "cuda_intrinsics"
version = "0.1.0"
edition = "2021"
publish = false

[dependencies]
pliron = "0.20.0"
pliron-derive = "0.20.0"
