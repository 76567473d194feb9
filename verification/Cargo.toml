[package]
name = "binary_calculator"
version = "0.1.0"
edition = "2021"
publish = false

[dependencies]
num-format = "0.4"
cli-clipboard = "0.4"
fluent-templates = "0.8"
iced = "0.7"
iced_native = "0.8"
