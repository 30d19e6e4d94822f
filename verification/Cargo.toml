[package]
name = "music_player"
version = "0.1.0"
edition = "2021"
publish = false

[dependencies]
cpal = "0.15"
crossterm = "0.28"
lofty = "*"
ratatui = "0.29"
symphonia = { version = "0.5", features = ["mp3", "aac", "isomp4", "alac"] }
walkdir = "2"
