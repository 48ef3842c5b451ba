[package]
name = "grin_wallet_session"
version = "0.1.0"
edition = "2021"
publish = false

[dependencies]
dirs = "=7.0.0"
grin_core = "=5.5.0"
grin_wallet_config = "=5.4.1"
grin_wallet_util = "=5.4.1"

[dev-dependencies]
tempfile = "=3.27.0"
