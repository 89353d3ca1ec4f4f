[package]
name = "pcapa"
version = "0.1.0"
edition = "2021"
publish = false

[dependencies]
aipn = "*"
linktype = "*"
log = "*"
env_logger = "*"
