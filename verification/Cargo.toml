[package]
name = "musettir"
version = "0.1.0"
edition = "2021"
publish = false

[dependencies]
gtk = "*"
relm = "*"
relm-derive = "*"
