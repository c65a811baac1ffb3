[package]
name = "clean_my_keys"
version = "0.1.0"
edition = "2021"
publish = false

[dependencies]
iced = { version = "0.14", default-features = false, features = ["tiny-skia", "thread-pool", "x11", "wayland"] }
evdev = "0.13"
image = { version = "0.25", default-features = false, features = ["png"] }
karen = "*"
