[package]
name = "cex"
version = "0.1.0"
edition = "2021"
publish = false

[dependencies]
indexmap = "*"
proc-macro2 = "*"
quote = "*"
syn = { version = "*", features = ["full"] }
