[package]
name = "sec"
version = "0.1.0"
edition = "2021"
publish = false

[dependencies]
reqwest = { version = "*", default-features = false }
tokio = { version = "*", default-features = false, features = ["rt", "macros"] }
