[package]
name = "ferrilator"
version = "0.1.0"
edition = "2021"
publish = false

[dependencies]
proc-macro2 = "=1.0.107"
quote = "*"
syn = { version = "=3.0.6", features = ["full"] }
