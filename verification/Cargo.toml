[package]
name = "pixel_dungeon"
version = "0.1.0"
edition = "2021"
publish = false

[dependencies]
rand = "0.9"
bincode = { version = "2", features = ["serde"] }
seahash = "4"
serde = { version = "1", features = ["derive"] }
hecs = "0.10"
anyhow = "1"
ratatui = "0.29"
crossterm = "0.28"
tui = "0.19"
