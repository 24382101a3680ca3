[package]
name = "simple_payments_scp"
version = "0.1.0"
edition = "2021"
publish = false

[dependencies]
ark-ed-on-bls12-381 = { version = "0.4", features = ["r1cs"] }
ark-bls12-381 = "0.4"
ark-ec = "0.4"
ark-ff = "0.4"
ark-serialize = "0.4"
ark-std = "0.4"
ark-relations = "0.4"
ark-r1cs-std = "0.4"
ark-crypto-primitives = { version = "0.4", features = ["crh", "merkle_tree", "prf", "r1cs", "snark"] }
ark-groth16 = "0.4"
blake2 = "0.10"
digest = "0.10"
rand = "0.8"
