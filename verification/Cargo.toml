[package]
name = "fusefs"
version = "0.1.0"
edition = "2021"
publish = false

[dependencies]
fuser = { version = "0.14", default-features = false }
libc = "0.2"
