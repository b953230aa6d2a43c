[package]
name = "rudisk"
version = "0.1.0"
edition = "2021"
publish = false

[dependencies]
pretty-bytes = "*"
rayon = "*"
structopt = "*"
walkdir = "*"
