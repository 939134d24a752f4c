[package]
name = "dotprod"
version = "0.1.0"
edition = "2021"
publish = false

[dependencies]
anyhow = "=1.0.104"
clap = { version = "=4.6.7", features = ["derive"] }
metal = { version = "=0.33.0", default-features = false }
