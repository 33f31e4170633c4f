[package]
name = "electrsd"
version = "0.1.0"
edition = "2021"
publish = false

[dependencies]
corepc-client = "=0.12.0"
corepc-node = "=0.12.0"
electrum-client = { version = "=0.25.2", default-features = false }
log = "=0.4.34"
nix = { version = "=0.31.3", features = ["signal"] }
