[package]
name = "bulk_loader"
version = "0.1.0"
edition = "2021"

[dependencies]
anyhow = "=1.0.104"
async-std = "=1.13.2"
chrono = "=0.4.45"
tiberius = { version = "=0.13.0", features = ["chrono"] }
