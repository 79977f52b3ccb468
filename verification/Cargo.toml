[package]
name = "breakout"
version = "0.1.0"
edition = "2021"
publish = false

[dependencies]
amethyst = { version = "=0.15.3", default-features = false, features = ["empty"] }
ncollide2d = "=0.33.0"
shrev = "=1.1.3"
