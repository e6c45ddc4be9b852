[package]
name = "asus_numpad"
version = "0.1.0"
edition = "2021"
publish = false

[dependencies]
evdev-rs = "0.6"
