[package]
name = "steampunk"
version = "0.1.0"
edition = "2021"
publish = false

[dependencies]
rand = "=0.8.8"
regex = "=1.13.1"
clap = { version = "=4.6.7", features = ["derive"] }
base64 = "0.13"
bounded-vec-deque = "0.1"
