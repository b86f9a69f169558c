[package]
name = "pvmfw"
version = "0.1.0"
edition = "2021"
publish = false

[dependencies]
ciborium = "0.2"
coset = "0.3"
log = "0.4"
tinyvec = "1"
zeroize = "1"
