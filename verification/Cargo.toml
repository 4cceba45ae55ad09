[package]
name = "monopoly"
version = "0.1.0"
edition = "2021"
publish = false

[dependencies]
serde = { version = "1", features = ["derive"] }
bincode = "1"
rand = "0.8"
tui = "0.19"
crossterm = "0.25"
