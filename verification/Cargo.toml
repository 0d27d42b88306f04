[package]
name = "grammar_validation"
version = "0.1.0"
edition = "2021"
publish = false

[dependencies]
tree-sitter = "*"
tree-sitter-language = "*"
