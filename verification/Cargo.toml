[package]
name = "yad"
version = "0.1.0"
edition = "2021"
publish = false

[dependencies]
chrono = "*"
reqwest = { version = "*", features = ["blocking"] }
rusqlite = "*"
sys-info = "*"
