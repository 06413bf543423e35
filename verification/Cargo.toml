[package]
name = "forum_config"
version = "0.1.0"
edition = "2021"
publish = false

[dependencies]
json = "*"
