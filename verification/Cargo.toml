[package]
name = "hackathon_badge"
version = "0.1.0"
edition = "2021"
publish = false

[dependencies]
scrypto = "=1.2.0"
scrypto-derive = "=1.2.0"
radix-blueprint-schema-init = "=1.2.0"
radix-common = "=1.2.0"
radix-common-derive = "=1.2.0"
radix-engine-interface = "=1.2.0"
radix-rust = "=1.2.0"
radix-sbor-derive = "=1.2.0"
sbor = "=1.2.0"
sbor-derive = "=1.2.0"
sbor-derive-common = "=1.2.0"
