[package]
name = "hit_detect"
version = "0.1.0"
edition = "2021"
publish = false

[dependencies]
opencv = "*"
pylon-cxx = "*"
