[package]
name = "bakunin_config"
version = "0.1.0"
edition = "2021"

[dependencies]
directories = "*"
serde = "*"
serde_json = "*"
json5 = "*"
toml = "*"
serde_yaml = "*"
log = "*"
thiserror = "*"
