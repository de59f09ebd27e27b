[package]
name = "bonding_curve"
version = "0.1.0"
edition = "2021"
publish = false

[dependencies]
solana-nostd-sha256 = "=0.2.0"
pinocchio = { version = "=0.11.2", features = ["cpi"] }
pinocchio-token = "=0.7.0"
five8_const = "=1.0.0"
