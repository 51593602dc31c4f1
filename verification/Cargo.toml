[package]
name = "dw3000-ng"
version = "0.1.0"
edition = "2021"
publish = false

[dependencies]
smoltcp = "*"
embedded-hal = "1"
nb = "1"
serde = { version = "1", features = ["derive"] }
