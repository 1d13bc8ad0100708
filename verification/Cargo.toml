[package]
name = "richtap_vibrator"
version = "0.1.0"
edition = "2021"
publish = false

[dependencies]
rsbinder = "*"
libc = "*"
