[package]
name = "daowiz"
version = "0.1.0"
edition = "2021"
publish = false

[dependencies]
actix = "0.13"
dotenv = "0.15"
env_logger = "0.10"
futures = "0.3"
hex = "0.4"
ipfs-api = { version = "0.13", default-features = false, features = ["with-hyper"] }
itertools = "0.10"
log = "0.4"
secp256k1 = "0.27"
serde = { version = "1", features = ["derive"] }
serde_json = "1"
web3 = { version = "0.19", default-features = false, features = ["http", "signing"] }
