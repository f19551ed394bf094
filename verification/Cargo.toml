[package]
name = "keiko"
version = "0.1.0"
edition = "2021"
publish = false

[dependencies]
cosmwasm-std = { version = "=1.5.11", features = ["cosmwasm_1_1", "cosmwasm_1_2"] }
cosmwasm-schema = "=1.5.11"
cw2 = "=1.1.2"
cw20 = "=1.1.2"
cw-storage-plus = "=1.2.0"
cw-utils = "=1.0.3"
thiserror = "=1.0.69"
kujira = "=0.8.3"
kujira-pilot = "=0.8.6"
kujira-fin = "=0.8.3"
kujira-bow = "=0.8.3"
fuzion-flows = "=0.8.3"
fuzion-utilities = "=0.8.3"
