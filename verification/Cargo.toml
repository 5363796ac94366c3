[package]
name = "alice_container"
version = "0.1.0"
edition = "2021"
publish = false

[dependencies]
libc = "0.2"
alice-analytics = "*"
alice-crypto = "*"
alice-db = "*"
