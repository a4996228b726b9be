[package]
name = "smali2jimple"
version = "0.1.0"
edition = "2021"
publish = false

[dependencies]
clap = { version = "4", features = ["derive"] }
itertools = "*"
walkdir = "2"
which = "*"
