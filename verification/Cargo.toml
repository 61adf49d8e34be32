[package]
name = "takyon"
version = "0.1.0"
edition = "2021"
publish = false

[dependencies]
io-uring = "0.6"
libc = "0.2"
nohash = "0.2"
pin-project-lite = "0.2"
