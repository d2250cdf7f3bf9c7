[package]
name = "branka"
version = "0.1.0"
edition = "2021"
publish = false

[dependencies]
base-x = "*"
chacha20poly1305 = "0.10"
flate2 = "*"
speedy = "*"
