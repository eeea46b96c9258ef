[package]
name = "shorty"
version = "0.1.0"
edition = "2021"
publish = false

[dependencies]
rand = "*"
url = "*"
hyper = "0.12"
futures = "0.1"
tera = "*"
log = "*"
pretty_env_logger = "*"
