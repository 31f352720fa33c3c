[package]
name = "harpoon"
version = "0.1.0"
edition = "2021"
publish = false

[dependencies]
serde = { version = "*", features = ["derive"] }
serde_json = "*"
anyhow = "*"
lazy_static = "*"
rust-embed = "*"
active-win-pos-rs = "*"
mki = "*"
