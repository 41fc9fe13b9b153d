[package]
name = "compute_harness"
version = "0.1.0"
edition = "2021"
publish = false

[dependencies]
anyhow = "=1.0.104"
bytemuck = "=1.25.2"
hassle-rs = "0.11"
png = "=0.17.16"
pollster = "=0.3.0"
wgpu = "=0.15.1"
