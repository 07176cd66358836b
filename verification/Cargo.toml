[package]
name = "sized_box"
version = "0.1.0"
edition = "2021"
publish = false

[dependencies]
smallvec = "1"
tracing = "0.1"
