[package]
name = "cxx_wstring"
version = "0.1.0"
edition = "2021"
publish = false

[dependencies]
widestring = "1"
cxx = "1"
libc = "0.2"
