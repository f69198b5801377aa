[package]
name = "webrtc-tunnel"
version = "0.1.0"
edition = "2021"
publish = false

[dependencies]
anyhow = "1"
async-trait = "0.1"
bitcode = { version = "0.5", features = ["serde"] }
bytes = "1"
clap = { version = "4", features = ["derive"] }
fern = "0.6"
fxhash = "0.2"
hex = "0.4"
humantime = "2"
interprocess = { version = "1.2", features = ["tokio_support"] }
log = "0.4"
rcgen = { version = "0.11", features = ["x509-parser"] }
rustls-pemfile = "1"
serde = { version = "1", features = ["derive"] }
tokio = { version = "1", features = ["full"] }
tokio-rustls = "0.24"
tokio-util = { version = "0.7", features = ["compat"] }
toml = "0.8"
webrtc = "0.9"
