[package]
name = "hostfacts"
version = "0.1.0"
edition = "2021"
publish = false

[dependencies]
libmacchina = { version = "=6.3.5", default-features = false }
systemstat = { version = "=0.2.7", default-features = false }
