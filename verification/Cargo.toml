[package]
name = "vagga_settings"
version = "0.1.0"
edition = "2021"
publish = false

[dependencies]
nix = "0.26"
quire = "*"
serde = { version = "1", features = ["derive"] }
