[package]
name = "rune_parser"
version = "0.1.0"
edition = "2021"
publish = false

[dependencies]
clap = { version = "=4.6.7", features = ["derive"] }
owo-colors = "=4.4.0"
serde = { version = "=1.0.229", features = ["derive"] }
toml = "=1.1.7"
