[package]
name = "ksgen"
version = "0.1.0"
edition = "2021"
publish = false

[dependencies]
aes = "0.8"
blake2 = "0.10"
bs58 = "0.5"
ctr = "0.9"
ed25519-dalek = { version = "2", features = ["rand_core"] }
rand = "0.8"
ripemd = "0.1"
scrypt = { version = "0.11", default-features = false }
secp256k1 = { version = "0.29", features = ["rand", "std"] }
sha2 = "0.10"
sha3 = "0.10"

[dev-dependencies]
hex = "0.4"
