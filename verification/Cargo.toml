[package]
name = "r_sqlite"
version = "0.1.0"
edition = "2021"
publish = false

[dependencies]
anyhow = "1"
clap = { version = "4", features = ["derive"] }
crossterm = "0.28"
ratatui = "0.28"
rusqlite = { version = "0.32", features = ["bundled"] }
walkdir = "2"
