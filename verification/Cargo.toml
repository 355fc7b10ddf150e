[package]
name = "svd-parser"
version = "0.6.0"
edition = "2021"
publish = false

[dependencies]
either = "1.1"
xmltree = "0.9"
