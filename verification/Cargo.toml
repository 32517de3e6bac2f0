[package]
name = "groupchat"
version = "0.1.0"
edition = "2021"
publish = false

[dependencies]
log = "=0.4.34"
spacetimedb = "=1.12.0"
