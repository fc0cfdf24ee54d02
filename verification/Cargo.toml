[package]
name = "rdadvise"
version = "0.1.0"
edition = "2021"
publish = false

[dependencies]
io-lifetimes = "1"
libc = "0.2"
