[package]
name = "bookmarks_browser"
version = "0.1.0"
edition = "2021"
publish = false

[dependencies]
base64 = "=0.22.1"
dirs = "=7.0.0"
gtk = "0.18"
serde = { version = "=1.0.229", features = ["derive"] }
serde_json = { version = "=1.0.154", features = ["preserve_order"] }
tao = "0.37"
ureq = { version = "=3.5.0", features = ["json"] }
wry = "0.57"
