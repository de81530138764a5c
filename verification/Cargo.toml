[package]
name = "poacher"
version = "0.1.0"
edition = "2021"
publish = false

[dependencies]
clap = "2"
human-panic = "*"
notify = "4"
regex = "1"
termion = "1"
