[package]
name = "rift-app-indicator"
version = "0.1.0"
edition = "2021"
publish = false

[dependencies]
libc = "=0.2.191"
objc2 = "=0.6.5"
objc2-app-kit = "=0.3.2"
objc2-core-foundation = "=0.3.2"
objc2-core-graphics = "=0.3.2"
objc2-core-text = "=0.3.2"
objc2-foundation = "=0.3.2"
