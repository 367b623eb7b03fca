[package]
name = "link_scraper"
version = "0.1.0"
edition = "2021"
publish = false

[dependencies]
infer = "*"
itertools = "*"
kamadak-exif = "*"
linkify = "*"
lopdf = "*"
mupdf = "*"
pdf-extract = "*"
regex = "*"
reqwest = { version = "*", default-features = false, features = ["blocking"] }
rtf-parser = "*"
thiserror = "*"
xml-rs = "*"
zip = { version = "*", default-features = false, features = ["deflate"] }
