[package]
name = "proc_keeper"
version = "0.1.0"
edition = "2021"
publish = false

[dependencies]
chrono = "0.4"
clap = { version = "4", features = ["derive"] }
serde = "1"
serde_derive = "1"
toml = "*"
