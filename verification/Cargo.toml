[package]
name = "include_img"
version = "0.1.0"
edition = "2021"
publish = false

[dependencies]
image = "0.24"
proc-macro2 = "1"
quote = "1"
syn = "2"
