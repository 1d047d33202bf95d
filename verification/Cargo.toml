[package]
name = "fluent-zero"
version = "0.1.0"
edition = "2021"
publish = false

[dependencies]
arc-swap = "*"
fluent-bundle = "*"
fluent-syntax = "*"
intl-memoizer = "*"
phf = "*"
unic-langid = "*"

[dev-dependencies]
phf_generator = "*"
