[package]
name = "xor_lookup"
version = "0.1.0"
edition = "2021"
publish = false

[dependencies]
plonkup = "=0.1.0"
rand = "=0.8.8"
rand_core = { version = "=0.6.4", features = ["getrandom"] }
dusk-bytes = "=0.1.7"
derive-hex = "=0.1.2"
