[package]
name = "claris"
version = "0.1.0"
edition = "2021"
publish = false

[dependencies]
css-color-parser = "=0.1.2"
yaml-rust = "=0.4.5"
getopts = "=0.2.24"
