[package]
name = "build_tree_sitter"
version = "0.1.0"
edition = "2021"
publish = false

[dependencies]
anyhow = "*"
cc = "*"
clap = { version = "*", features = ["derive"] }
dunce = "*"
git2 = { version = "*", default-features = false }
serde = { version = "*", features = ["derive"] }
toml = "*"
tracing = "*"
tracing-subscriber = "*"
