[package]
name = "zyr"
version = "0.1.0"
edition = "2021"
publish = false

[dependencies]
chrono = "*"
humantime = "*"
clap = { version = "*", features = ["derive"] }
crossterm = "*"
directories = "*"
serde = { version = "*", features = ["derive"] }
serde_json = "*"
