[package]
name = "gitswitch"
version = "0.1.0"
edition = "2021"
publish = false

[dependencies]
regex = "1"
ratatui = "0.28"
crossterm = "0.28"
arboard = { version = "3", default-features = false }
rusqlite = { version = "0.32", features = ["bundled"] }
dirs = "5"
color-eyre = "0.6"
