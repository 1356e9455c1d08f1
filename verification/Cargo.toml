[package]
name = "iosurface_gl"
version = "0.1.0"
edition = "2021"
publish = false

[dependencies]
cocoa = "0.24"
core-foundation = "0.9"
objc = "0.2"
raw-window-handle = "0.5"
