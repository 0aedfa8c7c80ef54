[package]
name = "stump_core"
version = "0.1.0"
edition = "2021"
publish = false

[dependencies]
zip = "*"
unrar = "*"
infer = "*"
image = "*"
webp = "*"
rayon = "*"
walkdir = "*"
