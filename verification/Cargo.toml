[package]
name = "permutation_queries"
version = "0.1.0"
edition = "2021"
publish = false

[dependencies]
halo2_proofs = "*"
