[package]
name = "rimi"
version = "0.1.0"
edition = "2021"
publish = false

[dependencies]
rand = "*"
image = { version = "*", default-features = false, features = ["png", "jpeg", "gif", "webp", "ico", "bmp", "tiff"] }
clap = { version = "*", features = ["derive"] }
clap_complete = "*"
clap_complete_nushell = "*"
dialoguer = "*"
indicatif = "*"
rayon = "*"
crossbeam-channel = "*"
anyhow = "*"
