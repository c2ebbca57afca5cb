[package]
name = "bus_proximity"
version = "0.1.0"
edition = "2021"
publish = false

[dependencies]
serde = { version = "1", features = ["derive"] }
serde_json = "1"
wasm-bindgen = "0.2"
web-sys = { version = "0.3", features = ["Window", "Document", "Element", "HtmlElement", "HtmlInputElement", "HtmlCollection", "CssStyleDeclaration", "Location", "Node"] }
console_error_panic_hook = "0.1"
