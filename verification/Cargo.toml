[package]
name = "workbench"
version = "0.1.0"
edition = "2021"
publish = false

[dependencies]
color-eyre = "0.6"
crossterm = "0.28"
dirs = "5"
ratatui = "0.29"
rusqlite = "0.32"
serde = { version = "1", features = ["derive"] }
serde_json = "1"
