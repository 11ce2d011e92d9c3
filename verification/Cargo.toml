[package]
name = "fluster_trading"
version = "0.1.0"
edition = "2021"
publish = false

[dependencies]
bytemuck = "=1.25.2"
pyth-sdk-solana = "=0.10.6"
solana-program = "1.18"
