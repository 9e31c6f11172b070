[package]
name = "icy_sauce"
version = "0.1.0"
edition = "2021"
publish = false

[dependencies]
chrono = { version = "0.4", default-features = false }
clap = { version = "4", features = ["derive"] }
