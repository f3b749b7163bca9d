[package]
name = "zugferd"
version = "0.1.0"
edition = "2021"
publish = false

[dependencies]
pdf = "=0.9.1"
clap = { version = "=4.6.7", features = ["derive"] }
