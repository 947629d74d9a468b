[package]
name = "header_filter_lang"
version = "0.1.0"
edition = "2021"
publish = false

[dependencies]
toml = "0.8"
clap = "2"
url = "2"
