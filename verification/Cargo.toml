[package]
name = "fate"
version = "0.1.0"
edition = "2021"
publish = false

[dependencies]
log = "0.4"
rustc-serialize = "0.3"
