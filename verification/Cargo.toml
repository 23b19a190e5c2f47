[package]
name = "font_kit"
version = "0.1.0"
edition = "2021"
publish = false

[dependencies]
euclid = "0.19"
lyon_path = "0.12"
dwrote = "*"
winapi = "0.3"
