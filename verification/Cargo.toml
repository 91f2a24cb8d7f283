[package]
name = "font_shape"
version = "0.1.0"
edition = "2021"
publish = false

[dependencies]
font = "=0.29.4"
typeface = "0.4"

[dev-dependencies]
notosans = "=0.1.0"
