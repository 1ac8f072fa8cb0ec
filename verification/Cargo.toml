[package]
name = "diffusion_attention"
version = "0.1.0"
edition = "2021"
publish = false

[dependencies]
burn-tensor = "=0.11.1"
burn-autodiff = "=0.11.1"
burn-ndarray = "=0.11.1"
image = "=0.24.9"
tokio = { version = "=1.54.1", features = ["rt-multi-thread", "macros"] }
