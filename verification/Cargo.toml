[package]
name = "poster"
version = "0.1.0"
edition = "2021"
publish = false

[dependencies]
bytes = "1"
either = "1"
futures = "0.3"
