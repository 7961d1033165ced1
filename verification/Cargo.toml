[package]
name = "rust_conky"
version = "0.1.0"
edition = "2021"

[dependencies]
anyhow = "*"
crossterm = "*"
