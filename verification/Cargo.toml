[package]
name = "tokount"
version = "2.1.4"
edition = "2021"
publish = false

[dependencies]
memchr = "2"
memmap2 = "0.9"
clap = { version = "4", features = ["derive"] }
comfy-table = "7"
indicatif = "0.17"
ignore = "0.4"
crossbeam-channel = "0.5"
rayon = "1"
serde = { version = "1", features = ["derive"] }
serde_json = "1"
walkdir = "2"
tokei = { version = "12", default-features = false }
