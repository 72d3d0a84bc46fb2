[package]
name = "gwasss"
version = "0.1.0"
edition = "2021"
publish = false

[dependencies]
clap = "2.33"
csv = "1"
enum-display-derive = "0.1"
serde = "1"
serde_derive = "1"
serde_yaml = "0.8"
walkdir = "2"
