[package]
name = "nvtx_tracing"
version = "0.1.0"
edition = "2021"
publish = false

[dependencies]
nvtx = "=1.3.0"
tracing = "=0.1.44"
tracing-subscriber = "=0.3.23"
