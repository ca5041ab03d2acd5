[package]
name = "fsops"
version = "0.1.0"
edition = "2021"
publish = false

[dependencies]
anyhow = "*"
filetime = "*"
log = "*"
walkdir = "*"
