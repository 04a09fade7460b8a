[package]
name = "yew_styles"
version = "0.1.0"
edition = "2021"
publish = false

[dependencies]
wasm-bindgen = "=0.2.129"
web-sys = { version = "=0.3.106", features = ["CssStyleDeclaration", "Document", "Element", "HtmlCollection", "HtmlElement", "HtmlOptionElement", "HtmlOptionsCollection", "HtmlSelectElement", "MouseEvent", "Window"] }
yew = { version = "=0.18.0", features = ["web_sys"] }
yew_assets = { version = "=0.1.2", features = ["controller_assets"] }
