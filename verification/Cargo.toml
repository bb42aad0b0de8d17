[package]
name = "circuit_harness"
version = "0.1.0"
edition = "2021"
publish = false

[dependencies]
halo2_proofs = "=0.4.0"
halo2_gadgets = "=0.6.0"
halo2_poseidon = "=0.2.0"
pasta_curves = "=0.6.1"
ff = "=0.14.0"
rand = { version = "=0.10.3", features = ["sys_rng"] }
ark-std = "=0.6.0"
