[package]
name = "stemmer"
version = "0.1.0"
edition = "2021"
publish = false

[dependencies]
urlencoding = "2"
stem-splitter-core = "*"
serde_json = "1"
http = "1"
tokio = { version = "1", features = ["rt-multi-thread", "rt", "fs", "macros"] }
