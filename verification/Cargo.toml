[package]
name = "rummelplatz"
version = "0.1.0"
edition = "2021"
publish = false

[dependencies]
io-uring = "*"
take_mut = "*"
thiserror = "*"
tracing = "*"
