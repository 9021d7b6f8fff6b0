[package]
name = "bitcoin-rpc-api"
version = "0.1.0"
edition = "2021"
publish = false

[dependencies]
bitcoincore-rpc = "0.16"
bitcoincore-rpc-json = "0.16"
jsonrpc-core = "18"
jsonrpc-derive = "18"
