[package]
name = "pinepods_core"
version = "0.1.0"
edition = "2021"
publish = false

[dependencies]
anyhow = "=1.0.104"
gloo-events = "=0.3.0"
gloo-net = "=0.7.0"
i18nrs = { version = "=0.1.10", features = ["yew"] }
js-sys = "=0.3.106"
percent-encoding = "=2.3.2"
serde = { version = "=1.0.229", features = ["derive"] }
serde_json = "=1.0.154"
urlencoding = "=2.1.3"
wasm-bindgen = "=0.2.129"
wasm-bindgen-futures = "=0.4.79"
web-sys = { version = "=0.3.106", features = ["console", "DataTransfer", "Document", "DomRect", "DragEvent", "Element", "Event", "EventTarget", "HtmlElement", "MouseEvent", "Window"] }
yew = { version = "=0.23.0", features = ["csr"] }
yewdux = "=0.13.0"
