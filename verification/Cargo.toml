[package]
name = "stubs"
version = "0.1.0"
edition = "2021"
publish = false

[dependencies]
fnv = "1.0.7"
linkme = "0.3"
tracing = { version = "0.1", default-features = false, features = ["std"] }
