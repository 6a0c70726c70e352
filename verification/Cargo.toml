[package]
name = "quillspeak"
version = "0.1.0"
edition = "2021"
publish = false

[dependencies]
serde_json = "=1.0.154"
sha1 = "=0.10.7"
signal-hook = "=0.3.18"
toml = "*"
