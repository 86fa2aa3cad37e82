[package]
name = "fbgreeter"
version = "0.1.0"
edition = "2021"
publish = false

[dependencies]
framebuffer = "*"
freedesktop-desktop-entry = "*"
hostname = "*"
shell-words = "*"
termion = "*"
