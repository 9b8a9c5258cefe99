[package]
name = "coreaudio_volctl"
version = "0.1.0"
edition = "2021"
publish = false

[dependencies]
coreaudio-sys = "*"
