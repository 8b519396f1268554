[package]
name = "lsr"
version = "0.1.0"
edition = "2021"
publish = false

[dependencies]
anyhow = "1"
byte-unit = "4"
chrono = "0.4"
clap = { version = "4", features = ["derive"] }
colored = "2"
users = "0.11"
