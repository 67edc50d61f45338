[package]
name = "fish_bridge"
version = "0.1.0"
edition = "2021"
publish = false

[dependencies]
autocxx = "*"
cxx = "*"
libc = "0.2"
