[package]
name = "timelock"
version = "0.1.0"
edition = "2021"
publish = false

[dependencies]
alloy-primitives = "*"
alloy-sol-types = "*"
sha3 = "*"
stylus-sdk = "*"
