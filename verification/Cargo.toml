[package]
name = "storage_config"
version = "0.1.0"
edition = "2021"
publish = false

[dependencies]
crc32fast = "1"
fs2 = "0.4"
log = "0.4"
