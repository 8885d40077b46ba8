[package]
name = "treeclip"
version = "0.1.0"
edition = "2021"
publish = false

[dependencies]
ignore = "*"
walkdir = "*"
unicode-width = "*"
colored = "*"
rand = "*"
arboard = "*"
clap = { version = "*", features = ["derive"] }

[dev-dependencies]
tempfile = "*"
