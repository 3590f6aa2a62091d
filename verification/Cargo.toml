[package]
name = "snake"
version = "0.1.0"
edition = "2021"
publish = false

[dependencies]
oorandom = "11.1"
getrandom = "0.2"
