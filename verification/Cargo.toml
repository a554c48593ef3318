[package]
name = "cargo-horizon"
version = "0.1.0"
edition = "2021"
publish = false

[dependencies]
anyhow = "1"
clap = { version = "3.2", features = ["derive"] }
config = { version = "0.13", default-features = false, features = ["yaml"] }
crossbeam = "0.8"
linkle = { version = "0.2", default-features = false }
serde = { version = "1", features = ["derive"] }
serde_yaml = "0.9"
tempdir = "0.3"
which = "4"

[dev-dependencies]
regex = "1"
