[package]
name = "login"
version = "0.1.0"
edition = "2021"
publish = false

[dependencies]
js-sys = "0.3"
serde = { version = "1", features = ["derive"] }
serde-wasm-bindgen = "0.6"
wasm-bindgen = "0.2"
web-sys = { version = "0.3", features = ["Window", "Document", "Location", "History", "Element", "Node", "EventTarget", "DomTokenList", "HtmlCollection", "HtmlElement", "HtmlInputElement", "HtmlButtonElement", "Headers", "RequestInit", "Response", "console"] }
wee_alloc = "0.4"
