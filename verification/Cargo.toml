[package]
name = "fpgrars"
version = "0.1.0"
edition = "2021"
publish = false

[dependencies]
radix_trie = "*"
