[package]
name = "screeps_colony"
version = "0.1.0"
edition = "2021"
publish = false

[dependencies]
screeps-game-api = "0.21"
js-sys = "0.3"
wasm-bindgen = "0.2"
serde = { version = "1", features = ["derive"] }
serde-wasm-bindgen = "0.6"
log = "0.4"
fake = "2"
