[package]
name = "venv_cleaner"
version = "0.1.0"
edition = "2021"
publish = false

[dependencies]
walkdir = "2"
chrono = "0.4"
clap = { version = "4", features = ["derive"] }
crossterm = "0.27"
ratatui = "0.26"
humansize = "2"
