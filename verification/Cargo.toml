[package]
name = "theme_resolver"
version = "0.1.0"
edition = "2021"
publish = false

[dependencies]
dark-light = "1"
iced = { version = "=0.12.1", default-features = false }
