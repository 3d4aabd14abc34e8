[package]
name = "emurs_kernel"
version = "0.1.0"
edition = "2021"
publish = false

[dependencies]
spin = "*"
blake2 = "*"
nalgebra = "*"
time = "*"
tinyvec = { version = "*", features = ["alloc"] }
