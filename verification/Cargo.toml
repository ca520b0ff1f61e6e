[package]
name = "shielded_keys"
version = "0.1.0"
edition = "2021"
publish = false

[dependencies]
bech32 = "0.9"
blake2b_simd = "1"
blake2s_simd = "1"
bs58 = "0.5"
getrandom = "0.2"
group = "0.13"
jubjub = "0.10"
k256 = { version = "0.13", features = ["ecdsa"] }
rand = "0.8"
ripemd = "0.1"
sha2 = "0.10"

[dev-dependencies]
hex = "0.4"
