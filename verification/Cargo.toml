[package]
name = "easyjack"
version = "0.1.0"
edition = "2021"
publish = false

[dependencies]
jack-sys = "*"
libc = "*"
chan-signal = "*"
