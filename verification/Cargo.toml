[package]
name = "slot_handoff"
version = "0.1.0"
edition = "2021"
publish = false

[dependencies]
bytemuck = "1"
flume = "0.11"
wasm-bindgen-futures = "0.4"
wasm_thread = "*"
web-sys = { version = "0.3", features = ["console"] }
wgpu = { version = "23", default-features = false, features = ["wgsl", "webgpu"] }
