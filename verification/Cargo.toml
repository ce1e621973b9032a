[package]
name = "endcoin"
version = "0.1.0"
edition = "2021"
publish = false

[dependencies]
anchor-lang = { version = "=0.31.2", features = ["init-if-needed"] }
anchor-spl = "=0.31.2"
spl-tlv-account-resolution = "=0.9.0"
bytemuck = "=1.25.2"
rust_decimal = "=1.43.0"
switchboard-on-demand = "=0.13.0"
