[package]
name = "watchd"
version = "0.1.0"
edition = "2021"
publish = false

[dependencies]
clap = "*"
notify = "*"
regex = "*"
serde = "*"
serde_derive = "*"
signal-hook = "*"
slog = "*"
slog-async = "*"
slog-term = "*"
toml = "*"
