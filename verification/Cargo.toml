[package]
name = "rays_core"
version = "0.1.0"
edition = "2021"
publish = false

[dependencies]
crossbeam-channel = "=0.5.17"
dyn-clone = "=1.0.20"
fastrand = "=2.5.0"
glam = "=0.30.10"
rayon = "=1.12.0"
