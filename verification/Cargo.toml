[package]
name = "nu_command"
version = "0.1.0"
edition = "2021"
publish = false

[dependencies]
toml_edit = "=0.22.27"
Inflector = "=0.11.4"
url = "=2.4.1"
nu-path = "=0.110.0"
