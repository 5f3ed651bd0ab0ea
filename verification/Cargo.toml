[package]
name = "bdk-cli"
version = "0.5.0"
edition = "2021"
publish = false

[dependencies]
bdk = { version = "=0.19.0", default-features = false, features = ["key-value-db", "electrum", "rpc", "use-esplora-ureq", "keys-bip39", "compiler"] }
clap = "2.34"
dirs-next = "2.0"
electrsd = "0.19.1"
env_logger = "0.9"
log = "0.4"
regex = "=1.13.1"
rustyline = "9"
serde_json = "1"
structopt = "0.3"
