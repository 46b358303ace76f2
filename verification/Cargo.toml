[package]
name = "login_form"
version = "0.1.0"
edition = "2021"
publish = false

[dependencies]
input_yew = "=0.2.0"
serde = { version = "=1.0.229", features = ["derive"] }
wasm-bindgen-futures = "=0.4.79"
web-sys = { version = "=0.3.106", features = ["Window", "Location"] }
yew = { version = "=0.21.0", features = ["csr"] }

[dev-dependencies]
regex = "=1.13.1"
