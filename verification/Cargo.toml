[package]
name = "feign"
version = "0.1.0"
edition = "2021"
publish = false

[dependencies]
crossbeam-epoch = "*"
trust-dns-resolver = "*"
reqwest = { version = "*", default-features = false, features = ["blocking"] }
