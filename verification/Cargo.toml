[package]
name = "certmaker"
version = "0.1.0"
edition = "2021"
publish = false

[dependencies]
anyhow = "1"
csv = "1"
image = "0.24"
imageproc = "0.23"
png = "0.17"
rayon = "1"
rusttype = "0.9"
