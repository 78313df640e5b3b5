[package]
name = "remdes"
version = "0.1.0"
edition = "2021"
publish = false

[dependencies]
lz4 = "*"
anyhow = "*"
clap = { version = "*", features = ["derive"] }
parking_lot = "*"
spin_sleep = "*"
