[package]
name = "komodo_snapshot"
version = "0.1.0"
edition = "2021"
publish = false

[dependencies]
csv = "=1.4.0"
komodo_rpc_client = "*"
