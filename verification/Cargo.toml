[package]
name = "landing_gear"
version = "0.1.0"
edition = "2021"
publish = false

[dependencies]
uom = "*"
