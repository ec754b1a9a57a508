[package]
name = "ncn_resolver"
version = "0.1.0"
edition = "2021"
publish = false

[dependencies]
solana-program = "=2.1.16"
borsh = "=0.10.4"
bytemuck = "=1.25.2"
thiserror = "=1.0.69"
spl-math = "=0.3.0"
spl-token = "=7.0.0"
spl-token-2022 = "=7.0.0"
jito-bytemuck = "=0.0.5"
jito-jsm-core = "=0.0.5"
jito-restaking-core = "=0.0.5"
jito-vault-core = "=0.0.5"
jito-vault-sdk = "=0.0.5"
