[package]
name = "pomo"
version = "0.1.0"
edition = "2021"
publish = false

[dependencies]
anyhow = "*"
chrono = "*"
clap = { version = "*", features = ["derive"] }
indicatif = "*"
notify-rust = "*"
serde = { version = "*", features = ["derive"] }
shellexpand = "*"
tempfile = "*"
tokio = { version = "*", features = ["rt", "macros"] }
toml = "*"
