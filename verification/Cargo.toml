[package]
name = "moldy"
version = "0.1.0"
edition = "2021"
publish = false

[dependencies]
clap = { version = "4", features = ["derive"] }
colored = "2"
dirs = "5"
serde = { version = "1", features = ["derive"] }
shellexpand = "3"
toml = "0.8"
walkdir = "2"

[dev-dependencies]
tempfile = "3"
