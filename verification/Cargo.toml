[package]
name = "remounter"
version = "0.1.0"
edition = "2021"
publish = false

[dependencies]
anyhow = "*"
clap = { version = "*", features = ["derive"] }
signal-hook = "*"
time = { version = "*", features = ["formatting"] }
tracing = "*"
tracing-subscriber = { version = "*", features = ["time"] }
