[package]
name = "zkvm16"
version = "0.1.0"
edition = "2021"
publish = false

[dependencies]
sha2 = "=0.11.0"
light-poseidon = "=0.4.1"
ark-bn254 = "=0.5.0"
ark-ff = "=0.5.0"
wincode = "=0.6.2"
