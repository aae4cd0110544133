[package]
name = "flashthing"
version = "0.1.0"
edition = "2021"
publish = false

[dependencies]
clap = { version = "=4.6.7", features = ["derive"] }
console_error_panic_hook = "*"
js-sys = "=0.3.107"
napi = { version = "=3.16.1", features = ["async", "napi4"] }
napi-derive = "=3.7.0"
pollster = "=0.4.0"
rusb = "=0.9.4"
serde = { version = "=1.0.229", features = ["derive"] }
serde_json = "=1.0.154"
thiserror = "=2.0.21"
tracing = "=0.1.44"
wasm-bindgen = "=0.2.130"
wasm-bindgen-futures = "*"
web-sys = { version = "=0.3.107", features = ["Navigator", "Performance", "Usb", "UsbAlternateInterface", "UsbConfiguration", "UsbControlTransferParameters", "UsbDevice", "UsbDeviceFilter", "UsbDeviceRequestOptions", "UsbDirection", "UsbEndpoint", "UsbInTransferResult", "UsbInterface", "UsbOutTransferResult", "UsbRecipient", "UsbRequestType", "UsbTransferStatus", "Window"] }
whoami = "=2.1.3"
zip = { version = "=9.2.2", default-features = false, features = ["deflate"] }
