[package]
name = "speedy_stt"
version = "0.1.0"
edition = "2021"
publish = false
