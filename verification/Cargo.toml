[package]
name = "cratis_core"
version = "0.1.0"
edition = "2021"
publish = false

[dependencies]
serde = "*"
serde_yaml = "*"
once_cell = "*"
