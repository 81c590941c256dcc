[package]
name = "ybc"
version = "0.4.0"
edition = "2021"
publish = false

[dependencies]
derive_more = "0.99"
serde = { version = "1", features = ["derive"] }
wasm-bindgen = "0.2"
web-sys = { version = "0.3", features = ["Event", "EventTarget", "File", "FileList", "HtmlCollection", "HtmlInputElement", "HtmlSelectElement", "HtmlTextAreaElement", "InputEvent", "Element", "Node"] }
yew = "0.20"
yew-agent = "0.2"
yew-router = "0.17"
