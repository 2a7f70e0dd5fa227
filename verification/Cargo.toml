[package]
name = "rustycube"
version = "0.1.0"
edition = "2021"
publish = false

[dependencies]
ctor = "*"
env_logger = "*"
libmem = "*"
log = "*"
once_cell = "*"
