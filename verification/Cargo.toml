[package]
name = "canvas"
version = "0.1.0"
edition = "2021"
publish = false

[dependencies]
wgpu = { version = "28", default-features = false, features = ["webgpu", "wgsl"] }
bytemuck = { version = "1", features = ["derive"] }
wasm-bindgen = "0.2"
wasm-bindgen-futures = "0.4"
web-sys = { version = "0.3", features = ["HtmlCanvasElement"] }
tracing = "0.1"
tracing-subscriber = { version = "0.3", features = ["env-filter"] }
console_error_panic_hook = "0.1"
figment = { version = "0.10", features = ["toml", "env"] }
serde = { version = "1", features = ["derive"] }
thiserror = "2"
