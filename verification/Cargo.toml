[package]
name = "imgopt"
version = "0.1.0"
edition = "2021"
publish = false

[dependencies]
base64 = "0.22"
fast_image_resize = "4"
image = "0.25"
imagequant = "4"
png = "0.17"
rayon = "1"
walkdir = "2"
