[package]
name = "dnacalc"
version = "0.1.0"
edition = "2021"
publish = false

[dependencies]
serde = { version = "=1.0.229", features = ["derive"] }
wasm-bindgen = "=0.2.130"
web-sys = { version = "=0.3.107", features = ["CanvasRenderingContext2d", "CssStyleDeclaration", "Element", "EventTarget", "KeyboardEvent", "Performance", "Window"] }
