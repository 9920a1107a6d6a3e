[package]
name = "glue_gen"
version = "0.1.0"
edition = "2021"
publish = false

[dependencies]
tree-sitter = "0.20"
tree-sitter-c = "0.20"
yaml-rust = "0.4"
rustop = "*"
unwrap_or = "*"
