[package]
name = "long_listing"
version = "0.1.0"
edition = "2021"
publish = false

[dependencies]
chrono = { version = "0.4", default-features = false, features = ["clock"] }
nix = { version = "*", default-features = false, features = ["user"] }
