[package]
name = "dodger"
version = "0.1.0"
edition = "2021"
publish = false

[dependencies]
bevy = "0.5"
rand = "=0.7.3"
