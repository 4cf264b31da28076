[package]
name = "fast_ciede2000"
version = "0.1.0"
edition = "2021"
publish = false

[dependencies]
clap = "3"
itertools = "*"
lab = "*"
y4m = "*"
