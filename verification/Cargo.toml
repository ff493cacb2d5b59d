[package]
name = "openquantumkeychain"
version = "0.1.0"
edition = "2021"
publish = false

[dependencies]
chrono = "=0.4.45"
oqs = { version = "=0.11.0", features = ["bike"] }
rustyline = "=10.1.1"
