[package]
name = "proj"
version = "0.1.0"
edition = "2021"
publish = false

[dependencies]
aho-corasick = "1"
ciborium = "0.2"
clap = { version = "4", features = ["derive"] }
serde = { version = "1", features = ["derive"] }
toml = "0.8"
xdg = "3"
