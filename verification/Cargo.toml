[package]
name = "purple_exporter"
version = "0.6.0"
edition = "2021"
publish = false

[dependencies]
json = "0.12"
clap = "2"
log = "0.4"
pretty_env_logger = "0.4"
url = "2"
