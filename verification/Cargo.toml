[package]
name = "unified-hifi-control"
version = "4.0.0"
edition = "2021"
publish = false

[dependencies]
urlencoding = "2"
serde = { version = "1", features = ["derive"] }
serde_json = "1"
dioxus = { version = "0.7", features = ["router"] }
dioxus-sdk-time = "0.7"
tracing = "0.1"
js-sys = "0.3"
wasm-bindgen = "0.2"
wasm-bindgen-futures = "0.4"
web-sys = { version = "0.3", features = ["Window", "Location", "Storage", "EventSource", "MessageEvent", "Event", "Document", "HtmlDocument", "Element", "HtmlElement", "DomTokenList", "Clipboard", "Navigator", "Performance", "PerformanceEntry", "HtmlTextAreaElement", "CssStyleDeclaration", "Request", "RequestInit", "Response", "Headers", "Node"] }
