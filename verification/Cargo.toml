[package]
name = "css_text"
version = "0.1.0"
edition = "2021"
publish = false

[dependencies]
cssparser = "0.29"
bitflags = "1.3.2"
