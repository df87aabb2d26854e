[package]
name = "youran"
version = "0.1.0"
edition = "2021"
publish = false

[dependencies]
unicode-width = "*"
anyhow = "*"
clap = { version = "*", features = ["derive"] }
dirs = "*"
rusqlite = { version = "*", features = ["bundled"] }
qrcode = "*"
qr2term = "*"
image = { version = "*", default-features = false, features = ["png"] }
