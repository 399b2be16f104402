[package]
name = "nfe"
version = "0.1.0"
edition = "2021"
publish = false

[dependencies]
chrono = "=0.4.45"
derive_more = "=0.99.20"
quick-xml = "=0.22.0"
