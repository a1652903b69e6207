[package]
name = "commit_pattern"
version = "0.1.0"
edition = "2021"
publish = false

[dependencies]
anyhow = "*"
clap = { version = "*", features = ["derive"] }
dirs = "*"
serde_json = "*"

[dev-dependencies]
assert_fs = "*"
