[package]
name = "yew-websocket"
version = "0.1.0"
edition = "2021"
publish = false

[dependencies]
anyhow = "1"
gloo-events = "0.2"
js-sys = "0.3"
thiserror = "1"
wasm-bindgen = "0.2"
web-sys = { version = "0.3", features = ["BinaryType", "Event", "EventTarget", "MessageEvent", "WebSocket"] }
yew = "0.21"
