[package]
name = "bwmp"
version = "0.1.0"
edition = "2021"
publish = false

[dependencies]
rand = "0.8"
termion = "*"
rodio = "0.19"
mp3-duration = "0.1"
