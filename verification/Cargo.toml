[package]
name = "jsparse"
version = "0.1.0"
edition = "2021"
publish = false

[dependencies]
ucd = "0.1"
time = "0.1"
