[package]
name = "cdumay_config"
version = "0.1.0"
edition = "2021"
publish = false

[dependencies]
cdumay_core = "*"
cdumay_error = "*"
cdumay_error_toml = "*"
cdumay_json = "*"
cdumay_yaml = "*"
log = "0.4"
serde = { version = "1", features = ["derive"] }
serde_json = "1"
serde-value = "0.7"
serde-xml-rs = "*"
serde_yaml = "0.9"
shellexpand = "3"
toml = "*"

[dev-dependencies]
tempfile = "3"
