[package]
name = "toy_xcb"
version = "0.1.0"
edition = "2021"
publish = false

[dependencies]
xcb = { version = "=1.7.1", features = ["xkb", "as-raw-xcb-connection"] }
xkbcommon = { version = "=0.9.0", features = ["x11"] }
