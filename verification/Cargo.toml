[package]
name = "zkcreds"
version = "0.1.0"
edition = "2021"
publish = false

[dependencies]
ark-ff = "=0.3.0"
ark-ec = "=0.3.0"
ark-std = "=0.3.0"
ark-serialize = "=0.3.0"
ark-bls12-381 = "=0.3.0"
ark-ed-on-bls12-381 = { version = "=0.3.0", features = ["r1cs"] }
ark-crypto-primitives = { version = "=0.3.0", features = ["r1cs"] }
ark-r1cs-std = "=0.3.1"
ark-relations = "=0.3.0"
arkworks-native-gadgets = "=1.2.0"
arkworks-r1cs-gadgets = "=1.2.0"
arkworks-utils = { version = "=1.0.1", features = ["poseidon_bls381_x3_3", "poseidon_bls381_x3_5", "poseidon_bls381_x5_3", "poseidon_bls381_x5_5"] }
lazy_static = "=1.5.1"
rand = "=0.8.8"
rand_chacha = "=0.3.1"
