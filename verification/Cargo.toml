[package]
name = "dao_contracts"
version = "0.1.0"
edition = "2021"
publish = false

[dependencies]
rust_decimal = { version = "=1.43.0", features = ["maths"] }
cosmwasm-std = { version = "=1.5.11", features = ["cosmwasm_1_2"] }
cosmwasm-schema = "=1.5.11"
cw-storage-plus = "=1.2.0"
cw2 = "=1.1.2"
cw-utils = "=1.0.3"
cw-ownable = "=0.5.1"
cw-hooks = "=2.6.0"
dao-interface = "=2.6.0"
thiserror = "=1.0.69"
