[package]
name = "pak_transcode"
version = "0.1.0"
edition = "2021"
publish = false

[dependencies]
rayon = "*"
parking_lot = "*"
colored = "*"
dialoguer = "*"
indicatif = "*"
eyre = "*"
