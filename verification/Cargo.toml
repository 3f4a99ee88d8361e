[package]
name = "evosim"
version = "0.1.0"
edition = "2021"
publish = false

[dependencies]
rand = "0.8"
rand_distr = "0.4"
serde_json = "1"
nanoid = "0.4"
tch = "0.13"
