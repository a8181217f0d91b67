[package]
name = "negroni"
version = "0.1.0"
edition = "2021"
publish = false

[dependencies]
regex = "1"
serde = { version = "1", features = ["derive"] }
bincode = "1"
clap = "2"
dirs = "1"
