[package]
name = "black_screen"
version = "0.1.0"
edition = "2021"
publish = false

[dependencies]
tempergb = "*"
winit = "0.25"
cocoa = "*"
