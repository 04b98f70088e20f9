[package]
name = "megaui_macroquad"
version = "0.1.0"
edition = "2021"
publish = false

[dependencies]
glam = "=0.10.2"
macroquad = "=0.3.0-alpha.17"
megaui = "=0.2.18"
miniquad = "=0.3.0-alpha.29"
