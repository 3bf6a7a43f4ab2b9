[package]
name = "neonbench"
version = "0.1.0"
edition = "2021"
publish = false

[dependencies]
openssl = "*"
postgres = "*"
postgres-openssl = "*"
reqwest = { version = "*", features = ["blocking"] }
