[package]
name = "treasury_governance"
version = "0.1.0"
edition = "2021"
publish = false

[dependencies]
ink = "*"
