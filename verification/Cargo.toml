[package]
name = "intentrace"
version = "0.1.0"
edition = "2021"
publish = false

[dependencies]
colored = "=3.1.1"
nix = { version = "=0.31.3", features = ["ptrace", "process", "signal"] }
pete = "=0.13.0"
procfs = "=0.18.0"
syscalls = "=0.8.1"
tabled = "=0.22.0"
