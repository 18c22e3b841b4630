[package]
name = "verstore"
version = "0.1.0"
edition = "2021"

[dependencies]
rmp-serde = "*"
