[package]
name = "loyalty_core"
version = "0.1.0"
edition = "2021"
publish = false

[dependencies]
rand = "0.8"
qrcode = { version = "0.14", default-features = false, features = ["svg"] }
serde = { version = "1", features = ["derive"] }
serde_json = "1"
log = "0.4"
thiserror = "1"
actix-web = "4"
actix-cors = "0.7"
actix-files = "0.6"
mongodb = "2"
yew = { version = "0.21", features = ["csr"] }
yew-router = "0.18"
stylist = { version = "0.13", features = ["yew_integration"] }
reqwasm = "0.5"
wasm-bindgen-futures = "0.4"
web-sys = { version = "0.3", features = ["console", "HtmlInputElement", "Window", "Location", "DomTokenList", "Element"] }
