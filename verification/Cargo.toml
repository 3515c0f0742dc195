[package]
name = "ps4000lib"
version = "0.1.0"
edition = "2021"
publish = false

[dependencies]
pico-common = "*"
pico-sys-dynamic = "*"
