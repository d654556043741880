[package]
name = "grr_imgui"
version = "0.1.0"
edition = "2021"
publish = false

[dependencies]
grr = "*"
imgui = "*"
