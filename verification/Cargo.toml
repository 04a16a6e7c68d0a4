[package]
name = "ocr_insertion"
version = "0.1.0"
edition = "2021"
publish = false

[dependencies]
image = { version = "=0.24.9", default-features = false, features = ["png"] }
active-win-pos-rs = "=0.8.4"
screenshots = "0.7"
parking_lot = "=0.12.5"
debug_print = "=1.0.0"
xcb = "=1.7.1"
