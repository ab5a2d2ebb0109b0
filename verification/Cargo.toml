[package]
name = "fantazia"
version = "0.1.0"
edition = "2021"
publish = false

[dependencies]
itertools = "*"
malachite-base = "*"
proc-macro2 = "*"
quote = "*"
syn = "*"
uncased = "*"
