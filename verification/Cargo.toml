[package]
name = "dmon"
version = "0.1.0"
edition = "2021"
publish = false

[dependencies]
nix = { version = "*", features = ["fs", "process", "user", "signal", "term"] }
serde = "*"
