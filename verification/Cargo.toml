[package]
name = "portal_tools"
version = "0.1.0"
edition = "2021"
publish = false

[dependencies]
hex = "*"
image = "*"
vtf = "*"
