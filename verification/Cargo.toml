[package]
name = "screen_sampler"
version = "0.1.0"
edition = "2021"
publish = false

[dependencies]
chrono = "*"
