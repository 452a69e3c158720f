[package]
name = "pdf_print"
version = "0.1.0"
edition = "2021"
publish = false

[dependencies]
rust-i18n = "*"
objc = "*"
log = "*"
env_logger = "*"
