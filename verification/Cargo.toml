[package]
name = "netservices"
version = "0.1.0"
edition = "2021"
publish = false

[dependencies]
amplify = "=4.9.0"
cyphernet = { version = "=0.1.0", features = ["ed25519", "x25519", "p2p-ed25519", "noise_x25519", "noise_sha2"] }
ed25519-compact = "=2.6.0"
io-reactor = "=0.5.2"
