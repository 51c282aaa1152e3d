[package]
name = "sysreg_view"
version = "0.1.0"
edition = "2021"
publish = false

[dependencies]
aarch64-esr-decoder = "*"
colored = "*"
