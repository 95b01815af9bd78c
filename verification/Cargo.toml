[package]
name = "dispatcher"
version = "0.1.0"
edition = "2021"
publish = false

[dependencies]
chrono = "*"
whoami = "*"
serde = { version = "*", features = ["derive"] }
