[package]
name = "beancount_completion"
version = "0.1.0"
edition = "2021"
publish = false

[dependencies]
chrono = "=0.4.45"
tree-sitter = "*"
lsp-types = "=0.97.0"

[dev-dependencies]
tree-sitter-beancount = "*"
