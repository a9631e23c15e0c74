[package]
name = "sha256_bench"
version = "0.1.0"
edition = "2021"
publish = false

[dependencies]
halo2_proofs = "=0.3.5"
halo2_gadgets = { version = "=0.5.0", features = ["unstable-sha256-gadget"] }
pasta_curves = "0.5"
ff = "0.13"
rand_core = { version = "=0.6.4", features = ["getrandom"] }
