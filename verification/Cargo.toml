[package]
name = "hangman"
version = "0.1.0"
edition = "2021"
publish = false

[dependencies]
colored = "2"
reqwest = { version = "0.12", features = ["blocking", "json"] }
