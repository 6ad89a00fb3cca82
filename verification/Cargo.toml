[package]
name = "lunar_security"
version = "0.1.0"
edition = "2021"
publish = false

[dependencies]
html-escape = "*"
libc = "*"
serde_json = "*"
sqlparser = "*"
validator = "*"
