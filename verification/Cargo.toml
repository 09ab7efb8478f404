[package]
name = "aegisllm-cuda"
version = "0.1.0"
edition = "2021"
publish = false

[dependencies]
cudarc = { version = "*", default-features = false, features = ["std", "driver", "nvrtc", "cublas", "cublaslt", "f16", "dynamic-loading", "cuda-12080"] }
half = "2"
libc = "0.2"
memmap2 = "0.9"
rayon = "1"
