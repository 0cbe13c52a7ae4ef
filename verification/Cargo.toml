[package]
name = "offline_gemma"
version = "0.1.0"
edition = "2021"
publish = false

[dependencies]
anyhow = "1"
candle-core = "0.8"
tokenizers = "*"
