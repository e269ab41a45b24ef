[package]
name = "gf1200_cli"
version = "0.1.0"
edition = "2021"
publish = false

[dependencies]
inquire = "*"
reqwest = { version = "*", default-features = false, features = ["blocking", "json"] }
secrecy = "*"
serde = { version = "1", features = ["derive"] }
