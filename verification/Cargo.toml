[package]
name = "pf2"
version = "0.1.0"
edition = "2021"
publish = false

[dependencies]
libc = "*"
log = "*"
rb-sys = "*"
