[package]
name = "crowdfunding"
version = "0.1.0"
edition = "2021"
publish = false

[dependencies]
soroban-sdk = "=22.0.11"
# Not called. soroban-env-host asks for ed25519-dalek ">=2.0.0" and does not
# build with 3.x, whose curve25519-dalek needs subtle 2.6: holding subtle at
# 2.5 keeps the resolver at ed25519-dalek 2.x.
subtle = "=2.5.0"

[dev-dependencies]
soroban-sdk = { version = "=22.0.11", features = ["testutils"] }
