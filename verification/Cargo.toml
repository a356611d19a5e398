[package]
name = "token_lending"
version = "0.1.0"
edition = "2021"
publish = false

[dependencies]
solana-program = "=5.1.0"
spl-token = { version = "=9.0.0", features = ["no-entrypoint"] }
pyth-sdk-solana = "0.7"
borsh = "=1.8.1"
bytemuck = "=1.25.2"
thiserror = "=2.0.21"
num-derive = "=0.5.1"
num-traits = "=0.2.19"
anchor-lang = "=1.2.1"
anchor-spl = "=1.2.1"
