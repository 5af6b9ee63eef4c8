[package]
name = "porcupine"
version = "0.1.0"
edition = "2021"
publish = false

[dependencies]
libloading = "0.8"
libc = "0.2"
clap = "2"
hound = "3"
chrono = "0.4"
itertools = "0.10"
