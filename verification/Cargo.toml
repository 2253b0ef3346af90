[package]
name = "worm"
version = "0.1.0"
edition = "2021"
publish = false

[dependencies]
id-arena = "2"
camino = "1"
miette = { version = "7", features = ["fancy"] }
thiserror = "2"
