[package]
name = "calc_eval"
version = "0.1.0"
edition = "2021"
publish = false

[dependencies]
eval = "0.4"
futures = "0.1"
js-sys = "0.3"
wasm-bindgen = "0.2"
wasm-bindgen-futures = "0.3"
web-sys = { version = "0.3", features = ["console"] }

[dev-dependencies]
regex = "1"
