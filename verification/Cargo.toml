[package]
name = "imagemeta"
version = "0.1.0"
edition = "2021"
publish = false

[dependencies]
image = "*"
png = "*"
kamadak-exif = "*"
flate2 = "*"
infer = "*"
walkdir = "*"
rayon = "*"
