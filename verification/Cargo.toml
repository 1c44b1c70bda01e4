[package]
name = "render_state"
version = "0.1.0"
edition = "2021"
publish = false

[dependencies]
wgpu = "23"
winit = "0.30"
pollster = "0.3"
bytemuck = "1"
image = { version = "0.25", default-features = false, features = ["png"] }
env_logger = "0.11"
log = "0.4"
cfg-if = "1"
console_error_panic_hook = "0.1"
console_log = "1"
wasm-bindgen = "0.2"
wasm-bindgen-futures = "0.4"
web-sys = { version = "0.3", features = ["Document", "Window", "Element", "HtmlCanvasElement"] }
