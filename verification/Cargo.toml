[package]
name = "haydeh"
version = "0.1.0"
edition = "2021"
publish = false

[dependencies]
walkdir = "*"
mp3-metadata = "*"
rodio = "*"
tui = "*"
crossterm = "*"
