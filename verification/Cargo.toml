[package]
name = "simplicityhl"
version = "0.1.0"
edition = "2021"
publish = false

[dependencies]
simplicity-lang = "*"
miniscript = "*"
itertools = "*"
base64 = "*"
clap = "*"
serde = { version = "*", features = ["derive"] }
serde_json = "*"
arbitrary = { version = "*", features = ["derive"] }
