[package]
name = "textify"
version = "0.1.0"
edition = "2021"
publish = false

[dependencies]
anyhow = "*"
clap = { version = "*", features = ["derive"] }
console = "*"
indicatif = "*"
memmap2 = "*"
rayon = "*"
walkdir = "*"
