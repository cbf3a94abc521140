[package]
name = "mfnf_export"
version = "0.1.0"
edition = "2021"
publish = false

[dependencies]
serde = { version = "1", features = ["derive"] }
serde_yaml = "*"
mediawiki_parser = "*"
