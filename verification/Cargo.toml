[package]
name = "hyprfinity"
version = "0.1.0"
edition = "2021"
publish = false

[dependencies]
clap = { version = "*", features = ["derive"] }
crossterm = "*"
ctrlc = "*"
ratatui = "*"
serde = { version = "*", features = ["derive"] }
serde_json = "*"
shell-words = "*"
skim = "*"
toml = "*"
