[package]
name = "stluna_bluna_converter"
version = "0.1.0"
edition = "2021"
publish = false

[dependencies]
cosmwasm-std = "=1.5.11"
cw-storage-plus = "=1.2.0"
cw20 = "=0.15.1"
astroport = "=2.9.5"
serde = "1"
