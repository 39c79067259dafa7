[package]
name = "pdf_cache"
version = "0.1.0"
edition = "2021"
publish = false

[dependencies]
pdfium-render = "*"
napi = { version = "2", features = ["napi8"] }
napi-derive = "2"
