[package]
name = "invaders"
version = "0.1.0"
edition = "2021"
publish = false

[dependencies]
instant = "0.1"
anyhow = "1"
log = "0.4"
wasm-logger = "0.2"
wasm-bindgen = "0.2"
wasm-bindgen-futures = "0.4"
js-sys = "0.3"
yew = "0.19"

[dependencies.web-sys]
version = "0.3"
features = [
    "Window",
    "Document",
    "Element",
    "HtmlElement",
    "HtmlCanvasElement",
    "CanvasRenderingContext2d",
    "ImageData",
    "ImageBitmap",
    "KeyboardEvent",
    "AudioContext",
    "AudioBuffer",
    "AudioBufferSourceNode",
    "AudioDestinationNode",
    "AudioParam",
    "GainNode",
    "Response",
    "EventTarget",
    "Node",
]
