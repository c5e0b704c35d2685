[package]
name = "fastborsh"
version = "0.1.0"
edition = "2021"
publish = false

[dependencies]
borsh = { version = "*", features = ["rc"] }
syn = "*"
quote = "*"
proc-macro2 = "*"
