[package]
name = "pathtracer"
version = "0.1.0"
edition = "2021"
publish = false

[dependencies]
image = { version = "0.23", default-features = false, features = ["png"] }
nalgebra = "0.29"
rand = { version = "0.8", features = ["small_rng"] }
