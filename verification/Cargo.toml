[package]
name = "rsid3"
version = "0.1.0"
edition = "2021"
publish = false

[dependencies]
anyhow = "1"
id3 = "1"
