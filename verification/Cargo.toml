[package]
name = "hypocycloid"
version = "0.1.0"
edition = "2021"
publish = false

[dependencies]
bevy = { version = "=0.14.2", default-features = false, features = ["bevy_color"] }
strum = "=0.26.3"
strum_macros = "=0.26.4"
