[package]
name = "enro"
version = "0.1.0"
edition = "2021"
publish = false

[dependencies]
anyhow = "1"
clap = { version = "4", features = ["derive"] }
colored = "2"
indicatif = "0.17"
infer = "0.16"
prettytable-rs = "0.10"
rayon = "1"
sysinfo = "0.30"
terminal_size = "0.3"
walkdir = "2"
