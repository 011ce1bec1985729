[package]
name = "multisig_vote"
version = "0.1.0"
edition = "2021"
publish = false

[dependencies]
pinocchio = "*"
pinocchio-log = "*"
pinocchio-system = "*"
solana-pubkey = { version = "*", features = ["sha2", "curve25519"] }
