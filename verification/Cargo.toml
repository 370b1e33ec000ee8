[package]
name = "kedolik_cp_swap"
version = "0.1.0"
edition = "2021"
publish = false

[dependencies]
anchor-lang = "=0.30.1"
anchor-spl = { version = "=0.30.1", features = ["metadata"] }
pyth-sdk-solana = "=0.10.6"

[dev-dependencies]
bytemuck = "=1.25.2"
