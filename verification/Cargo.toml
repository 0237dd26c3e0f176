[package]
name = "epd2in7"
version = "0.1.0"
edition = "2021"
publish = false

[dependencies]
embedded-hal = { version = "=0.2.7", features = ["unproven"] }
