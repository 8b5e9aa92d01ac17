[package]
name = "ws2812_strip"
version = "0.1.0"
edition = "2021"
publish = false

[dependencies]
pio = "0.2"
pio-proc = "0.2"
