[package]
name = "fancy-prompt"
version = "0.1.0"
edition = "2021"
publish = false

[dependencies]
chrono = "0.4"
clap = "4"
git2 = { version = "*", default-features = false }
hostname = "*"
term = "0.7"
terminal_size = "*"
users = "0.11"
walkdir = "2"

[dev-dependencies]
regex = "1"
