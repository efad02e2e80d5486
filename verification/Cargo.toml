[package]
name = "gpu_streams"
version = "0.1.0"
edition = "2021"
publish = false

[dependencies]
cudarc = { version = "=0.19.10", default-features = false, features = ["driver", "dynamic-loading", "cuda-12080"] }
libc = "=0.2.190"
