[package]
name = "awstream"
version = "0.1.0"
edition = "2021"
publish = false

[dependencies]
bytes = "*"
chrono = "*"
csv = "*"
serde = { version = "*", features = ["derive"] }
toml = "*"
