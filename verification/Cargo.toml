[package]
name = "hlbc_explorer"
version = "0.1.0"
edition = "2021"
publish = false

[dependencies]
hlbc = "*"
hlbc-decompiler = "*"
