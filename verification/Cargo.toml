[package]
name = "disc"
version = "0.1.0"
edition = "2021"
publish = false

[dependencies]
proc-macro-crate = "*"
proc-macro2 = "*"
quote = "*"
syn = "*"
