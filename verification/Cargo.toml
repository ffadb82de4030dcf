[package]
name = "potter_potter"
version = "0.1.0"
edition = "2021"
publish = false

[dependencies]
anchor-lang = "0.31"
anchor-spl = "0.31"
mpl-token-metadata = "5"
spl-discriminator = "0.4"
spl-tlv-account-resolution = "0.9"
spl-transfer-hook-interface = "0.9"
