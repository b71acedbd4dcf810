[package]
name = "param_slider"
version = "0.1.0"
edition = "2021"
publish = false

[dependencies]
vizia = { version = "=0.2.0", default-features = false }
