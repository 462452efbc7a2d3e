[package]
name = "flake"
version = "1.0.0"
edition = "2021"
publish = false

[dependencies]
clap = "2"
git2 = "*"
schedule_recv = "*"
secret-service = { version = "4", features = ["rt-async-io-crypto-rust"] }
walkdir = "2"
