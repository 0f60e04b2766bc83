[package]
name = "consensus"
version = "0.1.0"
edition = "2021"
publish = false

[dependencies]
anyhow = "1"
futures = "0.3"
itertools = "0.8"
log = "0.4"
regex = "1"
