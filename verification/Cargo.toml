[package]
name = "render_harness"
version = "0.1.0"
edition = "2021"
publish = false

[dependencies]
anyhow = "*"
console_error_panic_hook = "*"
console_log = "*"
env_logger = "*"
log = "*"
minifb = "*"
pico-args = "*"
pollster = "*"
wasm-bindgen = "*"
wasm2map = "*"
wgpu = "=22.1.0"
xshell = "*"
