[package]
name = "cableguard"
version = "0.1.0"
edition = "2021"
publish = false

[dependencies]
base64 = "0.13"
chrono = { version = "0.4", default-features = false, features = ["std"] }
ed25519-dalek = "1"
hex = "0.4"
tracing = "0.1"
x25519-dalek = { version = "2", features = ["static_secrets"] }

[dev-dependencies]
etherparse = "0.13"
rand_core = { version = "0.6", features = ["getrandom"] }
