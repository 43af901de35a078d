[package]
name = "matrix_commitment_scheme"
version = "0.1.0"
edition = "2021"
publish = false

[dependencies]
ark-std = { version = "0.5", features = ["std"] }
sha2 = "0.10"
rayon = "1"
