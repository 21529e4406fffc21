[package]
name = "textmerger"
version = "0.1.0"
edition = "2021"
publish = false

[dependencies]
content_inspector = "*"
glob = "*"
html-escape = "*"
image = "*"
mime_guess = "*"
nom-exif = "*"
pdf-extract = "*"
rayon = "*"
serde = { version = "*", features = ["derive"] }
serde_json = "*"
walkdir = "*"
