[package]
name = "telegrand"
version = "0.1.0"
edition = "2021"
publish = false

[dependencies]
gettext-rs = { version = "0.7", features = ["gettext-system"] }
gtk4 = "*"
libadwaita = "*"
once_cell = "1"
