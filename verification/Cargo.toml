[package]
name = "ftx"
version = "0.1.0"
edition = "2021"
publish = false

[dependencies]
ring = "*"
hex = "*"
chrono = "*"
serde = { version = "*", features = ["derive"] }
serde_json = "*"
rust_decimal = "*"
reqwest = { version = "*", features = ["blocking"] }
tungstenite = "*"
url = "*"
