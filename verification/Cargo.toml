[package]
name = "bleps"
version = "0.1.0"
edition = "2021"
publish = false

[dependencies]
aes = "0.8"
bitfield = "0.14"
cmac = "0.7"
embedded-io-async = "0.6"
log = "0.4"
p256 = { version = "0.13", default-features = false, features = ["arithmetic", "ecdh"] }
rand_core = { version = "0.6", features = ["getrandom"] }
