[package]
name = "space_checker"
version = "0.1.0"
edition = "2021"
publish = false

[dependencies]
fs2 = "*"
rouille = "*"
clap = { version = "*", features = ["derive"] }
serde = { version = "*", features = ["derive"] }
