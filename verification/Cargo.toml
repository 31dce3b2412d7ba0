[package]
name = "gud_gadget"
version = "0.1.0"
edition = "2021"
publish = false

[dependencies]
lz4 = "*"
bytes = "*"
usb-gadget = "*"
serde = { version = "*", features = ["derive"] }
serde_json = "*"
anyhow = "*"

[dev-dependencies]
ssmarshal = "*"
