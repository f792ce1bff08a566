[package]
name = "secret_core"
version = "0.1.0"
edition = "2021"
publish = false

[dependencies]
iota-crypto = { version = "*", default-features = false, features = ["blake2b"] }
rand = "0.8"
serde = "1"
zeroize = "1"

[dev-dependencies]
threadpool = "1"
