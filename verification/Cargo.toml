[package]
name = "ax_os"
version = "0.1.0"
edition = "2021"
publish = false

[dependencies]
bootloader = "0.9"
lazy_static = "1"
spin = "0.9"
