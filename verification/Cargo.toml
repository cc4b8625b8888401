[package]
name = "torrent_search"
version = "0.1.0"
edition = "2021"
publish = false

[dependencies]
unicode-segmentation = "*"
reqwest = { version = "*", default-features = false }
