[package]
name = "shard_wallet"
version = "0.1.0"
edition = "2021"
publish = false

[dependencies]
sha2 = "0.10"
argon2 = { version = "0.5", default-features = false, features = ["alloc"] }
aes-gcm = { version = "0.10", default-features = false, features = ["aes", "alloc"] }
bs58 = { version = "0.5", features = ["check"] }
zeroize = "1"
prettytable-rs = "0.10"
serde_json = "1"
structopt = "0.3"

[dev-dependencies]
bip39 = "2"
