[package]
name = "dialect-mir"
version = "0.1.0"
edition = "2021"
publish = false

[dependencies]
pliron = "*"
pliron-derive = "*"
