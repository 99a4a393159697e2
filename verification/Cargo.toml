[package]
name = "reconv"
version = "0.1.0"
edition = "2021"
publish = false

[dependencies]
image = { version = "0.25", default-features = false, features = ["png", "jpeg", "bmp"] }
clap = { version = "4", features = ["derive"] }
thiserror = "2"
