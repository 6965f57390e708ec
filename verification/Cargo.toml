[package]
name = "pool_admin_transfer"
version = "0.1.0"
edition = "2021"
publish = false

[dependencies]
soroban-sdk = "=25.3.2"
blend-contract-sdk = "=2.25.0"
