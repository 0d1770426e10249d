[package]
name = "cli_test"
version = "0.1.0"
edition = "2021"
publish = false

[dependencies]
ansi_term = "0.12"
clap = "2"
serde = { version = "1", features = ["derive"] }
serde_yaml = "0.9"
