[package]
name = "gpu_calc"
version = "0.1.0"
edition = "2021"
publish = false

[dependencies]
vulkano = "0.32"
png = "0.17"
