[package]
name = "bit_asm"
version = "0.1.0"
edition = "2021"
publish = false

[dependencies]
rust-gmp = "*"
regex = "1"
time = "0.1"
