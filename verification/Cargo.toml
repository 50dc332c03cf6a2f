[package]
name = "clipboard"
version = "0.1.0"
edition = "2021"
publish = false

[dependencies]
thiserror = "1"
objc = "0.2"
objc_id = "0.1"
objc-foundation = "0.1"
clipboard-win = "2.1"
winapi = { version = "0.3", features = ["winuser", "windef"] }
