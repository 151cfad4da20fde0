[package]
name = "file_emitter"
version = "0.1.0"
edition = "2021"
publish = false

[dependencies]
rustc-ap-syntax = "=634.0.0"
rustc-ap-syntax_pos = "=634.0.0"
