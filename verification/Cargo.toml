[package]
name = "contour_scene"
version = "0.1.0"
edition = "2021"
publish = false

[dependencies]
caper = "*"
time = "*"
