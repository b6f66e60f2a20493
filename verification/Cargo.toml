[package]
name = "game_core"
version = "0.1.0"
edition = "2021"
publish = false

[dependencies]
uuid = { version = "0.8", features = ["v4"] }
specs = "0.16"
glam = "0.13"
rand = "0.8"
rand_distr = "0.4"
clap = "2"
futures = "0.3"
tokio = { version = "1", features = ["full"] }
tokio-stream = { version = "0.1", features = ["sync"] }
tokio-tungstenite = "0.14"
wasm-bindgen = "0.2"
js-sys = "0.3"
web-sys = { version = "0.3", features = ["Window", "Document", "Element", "HtmlElement", "HtmlCanvasElement", "Node", "EventTarget", "Event", "MouseEvent", "TouchEvent", "TouchList", "Touch", "AddEventListenerOptions", "WebSocket", "MessageEvent", "BinaryType", "Performance", "console", "WebGlRenderingContext"] }
golem = "0.1"
image = { version = "0.23", default-features = false, features = ["png"] }
console_error_panic_hook = "0.1"
