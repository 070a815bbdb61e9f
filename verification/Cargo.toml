[package]
name = "stellar_scavngr_contract"
version = "0.1.0"
edition = "2021"
publish = false

[dependencies]
