[package]
name = "habit"
version = "0.1.0"
edition = "2021"
publish = false

[dependencies]
anyhow = "1"
chrono = "0.4"
clap = { version = "4", features = ["derive", "cargo"] }
colored = "2"
dialoguer = "0.11"
directories = "5"
lazy_static = "1"
ratatui = "0.27"
regex = "1"
rusqlite = "0.31"
termsize = "0.1"
textwrap = "0.16"
