[package]
name = "pseudoterminal"
version = "0.1.0"
edition = "2021"
publish = false

[dependencies]
nix = { version = "0.25", features = ["term", "fs", "signal", "process"] }
tokio = { version = "1", features = ["fs", "io-util", "process", "rt"] }
