[package]
name = "tdx_cairo_inputs"
version = "0.1.0"
edition = "2021"
publish = false

[dependencies]
cairo-vm = "*"
hex = "*"
ethnum = "*"
dcap-rs = "*"
serde = { version = "1", features = ["derive"] }
serde_json = "1"
