[package]
name = "cotrex"
version = "3.0.0"
edition = "2021"
publish = false

[dependencies]
serde = { version = "1", features = ["derive"] }
serde_json = "1"
regex = "1"
glob = "0.3"
dirs = "5"
toml = "0.8"
ureq = { version = "2", features = ["json"] }
indicatif = "0.17"
inquire = "0.7"
markdown-to-ansi = "*"
thiserror = "1"

[dev-dependencies]
tempfile = "3"
