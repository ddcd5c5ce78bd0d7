[package]
name = "pvm_contract"
version = "0.1.0"
edition = "2021"
publish = false

[dependencies]
anyhow = "*"
clap = { version = "*", features = ["derive"] }
env_logger = "*"
log = "*"
toml_edit = "*"
polkavm-linker = "*"
