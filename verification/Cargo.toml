[package]
name = "discord_interactions"
version = "0.1.0"
edition = "2021"
publish = false

[dependencies]
bytes = "1"
ed25519-dalek = "=2.2.0"
hex = "=0.4.3"
http = "=1.5.0"
spin-sdk = "=7.0.0"
