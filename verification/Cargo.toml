[package]
name = "ray_tracing"
version = "0.1.0"
edition = "2021"
publish = false

[dependencies]
rand = "0.8"
nalgebra = "0.32"
rayon = "1"
indicatif = "0.17"
image = "0.24"
