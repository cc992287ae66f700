[package]
name = "kodegen_install"
version = "0.1.0"
edition = "2021"
publish = false

[dependencies]
serde_json = "*"
toml = "*"
serde_yaml = "*"
plist = "*"
directories = "*"
