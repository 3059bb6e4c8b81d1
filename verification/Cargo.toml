[package]
name = "glutin"
version = "0.1.0"
edition = "2021"
publish = false

[dependencies]
glutin_egl_sys = "*"
