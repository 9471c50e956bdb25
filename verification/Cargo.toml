[package]
name = "incinerator"
version = "0.1.0"
edition = "2021"
publish = false

[dependencies]
anchor-lang = "*"
anchor-spl = "*"
spl-token-2022 = "*"
spl-token-metadata-interface = "*"
