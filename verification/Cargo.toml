[package]
name = "yew"
version = "0.1.0"
edition = "2021"
publish = false

[dependencies]
html-escape = "0.2"
futures = "0.3"
gloo-utils = "0.1"
console_error_panic_hook = "0.1"
web-sys = { version = "0.3", features = ["Document", "Element", "HtmlElement", "Node", "Window"] }
