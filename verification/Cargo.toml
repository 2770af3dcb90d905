[package]
name = "belfast"
version = "0.1.0"
edition = "2021"
publish = false

[dependencies]
wgpu = "*"
naga = { version = "*", features = ["wgsl-in"] }
bytemuck = "*"
glam = "*"
thiserror = "*"
serde = { version = "*", features = ["derive"] }
serde-wasm-bindgen = "*"
wasm-bindgen = "*"
js-sys = "*"
web-sys = { version = "*", features = ["HtmlCanvasElement", "HtmlElement", "Element", "EventTarget", "PointerEvent", "MouseEvent", "WheelEvent", "Event", "AddEventListenerOptions", "ImageBitmap", "Window"] }

[dev-dependencies]
pollster = "*"
