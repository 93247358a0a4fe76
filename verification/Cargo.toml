[package]
name = "mail_indexer"
version = "0.1.0"
edition = "2021"
publish = false

[dependencies]
anchor-lang = "0.31.2"
sha2 = "*"
base64 = "*"
sologger_log_context = "*"
substreams = "*"
substreams-database-change = "*"
substreams-solana = "*"
