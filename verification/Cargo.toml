[package]
name = "stdgotchi"
version = "0.1.0"
edition = "2021"
publish = false

[dependencies]
embedded-graphics = "0.8"
heapless = "0.8"
log = "0.4"
rand = "0.8"
