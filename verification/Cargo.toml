[package]
name = "paperfold"
version = "0.1.0"
edition = "2021"
publish = false

[dependencies]
anyhow = "=1.0.104"
nalgebra = "=0.33.3"
