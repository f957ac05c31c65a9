[package]
name = "zksync_os"
version = "0.1.0"
edition = "2021"
publish = false

[dependencies]
revm = { version = "*", default-features = false, features = ["std"] }
