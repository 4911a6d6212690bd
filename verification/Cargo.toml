[package]
name = "isolate"
version = "0.1.0"
edition = "2021"
publish = false

[dependencies]
nix = { version = "*", features = ["user", "fs", "mount", "process", "resource", "signal", "dir"] }
