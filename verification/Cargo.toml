[package]
name = "todo"
version = "0.1.0"
edition = "2021"
publish = false

[dependencies]
chrono = "0.4"
clap = { version = "4", features = ["derive"] }
crossterm = "0.28"
fuzzy-matcher = "0.3"
notify-rust = "4"
ratatui = "0.29"
rusqlite = { version = "0.32", features = ["bundled"] }
