[package]
name = "bibfront"
version = "0.1.0"
edition = "2021"
publish = false

[dependencies]
nom-bibtex = "*"
clap = { version = "4", features = ["derive"] }
