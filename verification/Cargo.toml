[package]
name = "nixpkgs_lint"
version = "0.1.0"
edition = "2021"
publish = false

[dependencies]
tree-sitter = "=0.25.10"
tree-sitter-nix = "=0.3.0"
streaming-iterator = "0.1"
predicates = "=3.1.4"
serde = { version = "=1.0.229", features = ["derive"] }
serde_json = "=1.0.151"
clap = { version = "=3.2.25", features = ["derive"] }
walkdir = "=2.5.0"
rayon = "=1.12.0"
indicatif = { version = "=0.17.11", features = ["rayon"] }
ariadne = "=0.4.1"
