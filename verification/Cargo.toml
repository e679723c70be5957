[package]
name = "cmddeck"
version = "0.1.0"
edition = "2021"
publish = false

[dependencies]
fuzzy-matcher = "*"
tui-input = "*"
ratatui = "*"
crossterm = "*"
clap = { version = "*", features = ["derive"] }
serde = { version = "*", features = ["derive"] }
toml = "*"
dirs = "*"
