[package]
name = "typeinfo"
version = "0.1.1"
edition = "2021"
publish = false

[dependencies]
quote = "0.3"
syn = "0.11"
