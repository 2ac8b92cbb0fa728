[package]
name = "backstop_manager"
version = "0.1.0"
edition = "2021"
publish = false

[dependencies]
soroban-sdk = "22"
blend-contract-sdk = "=1.22.0"
