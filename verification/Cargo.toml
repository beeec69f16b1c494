[package]
name = "validator_bootstrap"
version = "0.1.0"
edition = "2021"
publish = false

[dependencies]
sha1 = "*"
urlencoding = "*"
serde_json = "*"
anyhow = "*"
clap = { version = "*", features = ["derive"] }
reqwest = { version = "*", default-features = false, features = ["blocking"] }
