[package]
name = "sparksdr_core"
version = "0.1.0"
edition = "2021"
publish = false

[dependencies]
anyhow = "1"
chrono = { version = "0.4", features = ["serde"] }
js-sys = "0.3"
serde = { version = "1", features = ["derive"] }
serde_json = "1"
wasm-bindgen = "0.2"
wasm-bindgen-futures = "0.4"
web-sys = { version = "0.3", features = ["AudioBuffer", "AudioBufferSourceNode", "AudioContext", "AudioDestinationNode", "AudioNode", "AudioParam", "BaseAudioContext", "BinaryType", "Blob", "CanvasRenderingContext2d", "GainNode", "HtmlCanvasElement", "ImageData", "MessageEvent", "WebSocket"] }
yew = "0.17"
yew-router = "0.14"
