[package]
name = "bls_agg"
version = "0.1.0"
edition = "2021"
publish = false

[dependencies]
blst = { version = "=0.3.17", features = ["portable"] }
libc = "=0.2.190"
