[package]
name = "nft_staking"
version = "0.1.0"
edition = "2021"
publish = false

[dependencies]
cosmwasm-std = "1.5"
cosmwasm-schema = "1.5"
cw721 = "0.18"
cw-storage-plus = "1.2"
thiserror = "1.0"
