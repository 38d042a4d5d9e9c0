[package]
name = "jiffy"
version = "0.1.0"
edition = "2021"
publish = false

[dependencies]
jiff = "=0.1.29"
