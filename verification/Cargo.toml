[package]
name = "zk_ballot_validation"
version = "0.1.0"
edition = "2021"
publish = false

[dependencies]
bulletproofs = "=4.0.0"
curve25519-dalek-ng = "=4.1.1"
merlin = "=3.0.0"
rand = "=0.8.8"
curdleproofs = "=0.0.1"
ark-bls12-381 = "=0.3.0"
ark-ec = "=0.3.0"
ark-std = "=0.3.0"
