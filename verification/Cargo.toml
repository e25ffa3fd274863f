[package]
name = "rig_control"
version = "0.1.0"
edition = "2021"
publish = false

[dependencies]
adif = "0.1.3"
anyhow = "1"
js-sys = "0.3"
serde = { version = "1", features = ["derive"] }
serde_json = "1"
uuid = { version = "1", features = ["serde"] }
wasm-bindgen = "0.2"
wasm-bindgen-futures = "0.4"
web-sys = { version = "0.3", features = ["AudioBuffer", "AudioBufferSourceNode", "AudioContext", "AudioDestinationNode", "AudioNode", "AudioParam", "AnalyserNode", "BinaryType", "Blob", "GainNode", "MessageEvent", "WebSocket"] }
yew = { version = "0.16", features = ["web_sys"] }
yew-router = { version = "0.13", features = ["web_sys"] }
