[package]
name = "filepilot"
version = "0.1.0"
edition = "2021"
publish = false

[dependencies]
fuzzy-matcher = "*"
regex = "*"
ignore = "*"
tokio = { version = "*", features = ["rt-multi-thread", "macros", "time"] }
crossterm = "*"
ratatui = "*"
clap = "*"
open = "*"
serde = { version = "*", features = ["derive"] }
serde_json = "*"
