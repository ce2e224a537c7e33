[package]
name = "intero"
version = "0.1.0"
edition = "2021"
publish = false

[dependencies]
base64 = "=0.22.1"
image = { version = "=0.24.9", default-features = false, features = ["png"] }
log = "0.4"
serde = { version = "1", features = ["derive"] }
cocoa = "0.24"
objc = "0.2"
block = "0.1"
window-vibrancy = "0.4"
xcap = "0.0"
