[package]
name = "aegis_circuit"
version = "0.1.0"
edition = "2021"
publish = false

[dependencies]
ark-bn254 = "0.4"
ark-ed-on-bn254 = { version = "0.4", features = ["r1cs"] }
ark-ff = "0.4"
ark-ec = "0.4"
ark-std = "0.4"
ark-serialize = "0.4"
ark-relations = "0.4"
ark-r1cs-std = "0.4"
ark-groth16 = "0.4"
ark-crypto-primitives = { version = "0.4", features = ["crh", "sponge", "encryption", "merkle_tree", "r1cs", "snark"] }
rand = "0.8"
sha2 = "0.10"
serde_json = "1"
regex = "1"
anyhow = "1"
