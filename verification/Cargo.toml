[package]
name = "tls_verify"
version = "0.1.0"
edition = "2021"
publish = false

[dependencies]
parking_lot = "0.12"
ring = "0.16.20"
sct = "=0.7.0"
webpki = { version = "=0.22.0", features = ["alloc", "std"] }
