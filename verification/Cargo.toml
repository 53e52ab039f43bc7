[package]
name = "tunnel_sim"
version = "0.1.0"
edition = "2021"
publish = false

[dependencies]
boringtun = "0.6"
rand_core = { version = "0.6", features = ["getrandom"] }
