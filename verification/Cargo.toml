[package]
name = "branchy"
version = "0.1.0"
edition = "2021"
publish = false

[dependencies]
regex = "*"
anyhow = "*"
colored = "*"
clap = { version = "*", features = ["derive"] }
git2 = { version = "*", default-features = false }
