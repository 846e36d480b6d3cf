[package]
name = "fappa"
version = "0.1.0"
edition = "2021"
publish = false

[dependencies]
anyhow = "=1.0.104"
conch-parser = "=0.1.1"
libc = "=0.2.190"
nix = { version = "=0.31.3", features = ["fs", "mount", "process", "sched", "user"] }
os_pipe = "=1.2.3"
walkdir = "=2.5.0"
