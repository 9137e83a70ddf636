[package]
name = "picm"
version = "0.1.0"
edition = "2021"
publish = false

[dependencies]
clap = { version = "=4.6.7", features = ["derive"] }
claxon = "=0.4.3"
hound = "=3.5.1"
libc = "=0.1.12"
rb = "=0.4.1"
thread-priority = "=3.1.1"
videocore = "=0.1.3"
