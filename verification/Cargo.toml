[package]
name = "lndk"
version = "0.1.0"
edition = "2021"
publish = false

[dependencies]
bitcoin = "=0.29.2"
rand_chacha = "=0.3.1"
rand_core = { version = "=0.6.4", features = ["getrandom"] }
lightning = "=0.0.114"
tokio = { version = "1", features = ["rt-multi-thread", "macros", "sync"] }
futures = "0.3"
log = "0.4"
simple_logger = "4"
tonic_lnd = "=0.5.1"

[dev-dependencies]
hex = "=0.4.3"
