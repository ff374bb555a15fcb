[package]
name = "kart_race"
version = "0.1.0"
edition = "2021"
publish = false

[dependencies]
macroquad = { version = "=0.4.16", features = ["audio"] }
miniquad = "=0.4.11"
