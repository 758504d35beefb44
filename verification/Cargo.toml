[package]
name = "draw_dispatch"
version = "0.1.0"
edition = "2021"
publish = false

[dependencies]
orphan-crippler = "*"
core-graphics = "*"
objc = "*"
objc_exception = "*"
