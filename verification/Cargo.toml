[package]
name = "sparql_ls"
version = "0.1.0"
edition = "2021"
publish = false

[dependencies]
serde = { version = "1", features = ["derive"] }
serde_json = "1"
serde_repr = "0.1"
tree-sitter = "*"
tree-sitter-sparql = "*"
