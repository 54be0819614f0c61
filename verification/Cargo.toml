[package]
name = "runny"
version = "0.1.0"
edition = "2021"
publish = false

[dependencies]
shlex = "1"
nix = { version = "0.29", features = ["fs", "process", "signal", "term"] }
winapi = "0.2"
kernel32-sys = "0.2"
user32-sys = "0.2"
