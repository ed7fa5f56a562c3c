[package]
name = "rendering_worker"
version = "0.1.0"
edition = "2021"
publish = false

[dependencies]
base64 = "*"
config = "*"
handlebars = { version = "*", features = ["dir_source"] }
image = { version = "*", default-features = false, features = ["jpeg"] }
qrcode = "*"
rustls-pemfile = "*"
serde = { version = "*", features = ["derive"] }
tokio = { version = "*", features = ["full"] }
tokio-rustls = "*"
uuid = { version = "*", features = ["v4"] }
serde_json = "*"
