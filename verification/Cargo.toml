[package]
name = "amm_pool"
version = "0.1.0"
edition = "2021"
publish = false

[dependencies]
cosmwasm-std = "=2.3.5"
cosmwasm-schema = "=2.3.5"
cw20 = "=2.0.0"
cw-storage-plus = "=2.0.0"
thiserror = "=1.0.69"
