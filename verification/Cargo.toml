[package]
name = "native_build"
version = "0.1.0"
edition = "2021"
publish = false

[dependencies]
num_cpus = "1"
libc = "0.2"
tar = "0.4"
flate2 = "1"
bindgen = "*"
