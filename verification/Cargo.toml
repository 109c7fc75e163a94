[package]
name = "audio_visualizer"
version = "0.1.0"
edition = "2021"
publish = false

[dependencies]
console_error_panic_hook = "0.1"
futures = { version = "0.3", default-features = false, features = ["std"] }
js-sys = "0.3"
wasm-bindgen = "0.2"
wasm-bindgen-futures = "0.4"
web-sys = { version = "0.3", features = ["AnalyserNode", "AudioContext", "AudioDestinationNode", "AudioNode", "BaseAudioContext", "CanvasRenderingContext2d", "Document", "Element", "EventTarget", "HtmlCanvasElement", "HtmlCollection", "HtmlElement", "HtmlMediaElement", "MediaElementAudioSourceNode", "MediaSource", "Node", "ReadableStream", "ReadableStreamDefaultReader", "Response", "SourceBuffer", "Url", "Window", "console"] }
