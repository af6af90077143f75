[package]
name = "cnix"
version = "0.1.0"
edition = "2021"
publish = false

[dependencies]
dotlock = "*"
indoc = "2"
miette = "7"
regex = "1"
reqwest = { version = "0.12", default-features = false, features = ["rustls-tls"] }
serde = { version = "1", features = ["derive"] }
serde_json = "1"
whoami = "1"
