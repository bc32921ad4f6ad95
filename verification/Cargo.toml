[package]
name = "card"
version = "0.1.0"
edition = "2021"
publish = false

[dependencies]
ff = "0.13"
halo2_proofs = "0.3"
rand_core = { version = "0.6", features = ["getrandom"] }
wasm-bindgen = "0.2"
js-sys = "0.3"
