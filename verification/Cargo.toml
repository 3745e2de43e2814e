[package]
name = "y_sweet_gateway"
version = "0.1.0"
edition = "2021"
publish = false

[dependencies]
y-sweet-core = "*"
nanoid = "*"
url = "*"
serde_json = "*"
serde = { version = "*", features = ["derive"] }
