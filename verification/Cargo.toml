[package]
name = "magma_virtio"
version = "0.1.0"
edition = "2021"
publish = false

[dependencies]
magma-gpu = "=0.1.85"
