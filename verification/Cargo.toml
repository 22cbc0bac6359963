[package]
name = "pinetimers"
version = "0.1.0"
edition = "2021"
publish = false

[dependencies]
rubble = "*"
chrono = { version = "*", default-features = false }
