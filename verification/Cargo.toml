[package]
name = "attested_net"
version = "0.1.0"
edition = "2021"
publish = false

[dependencies]
chacha20poly1305 = "0.10"
ed25519-dalek = "=2.2.0"
sha2 = "=0.10.9"
x25519-dalek = "=2.0.1"
