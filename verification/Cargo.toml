[package]
name = "choot"
version = "0.1.0"
edition = "2021"
publish = false

[dependencies]
clap = "*"
nix = { version = "*", features = ["mount", "sched", "process", "fs", "user"] }
