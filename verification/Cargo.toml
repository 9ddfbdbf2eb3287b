[package]
name = "cuda_oxide"
version = "0.1.0"
edition = "2021"
publish = false

[dependencies]
cuda-core = "=0.3.1"
pliron = "=0.20.0"
pliron-derive = "=0.20.0"
thiserror = "=2.0.21"
